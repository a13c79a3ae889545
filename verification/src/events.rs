//! Events that update what the NeoPixels show.
use vstd::prelude::*;

use crate::config::NUM_PEOPLE;
use crate::led_pattern::LedState;

verus! {

/// A change to the NeoPixel state.
#[derive(Clone, Copy, Debug)]
pub enum LedEvent {
    /// Immediate local feedback: a button was just pressed.
    Pressed { person_idx: usize },
    /// Immediate local feedback: a button was just long-pressed to cancel.
    Cancelled { person_idx: usize },
    /// Reconciliation from the server's LED state (which is also what
    /// clears the LEDs after the server's daily reset).
    Sync { pressed: [bool; NUM_PEOPLE] },
}

/// The person an event is about exists.
pub open spec fn led_event_ok(event: LedEvent) -> bool {
    match event {
        LedEvent::Pressed { person_idx } => person_idx < NUM_PEOPLE,
        LedEvent::Cancelled { person_idx } => person_idx < NUM_PEOPLE,
        LedEvent::Sync { .. } => true,
    }
}

/// The pressed flags after `event`.
pub open spec fn pressed_after(pressed: Seq<bool>, event: LedEvent) -> Seq<bool> {
    match event {
        LedEvent::Pressed { person_idx } => pressed.update(person_idx as int, true),
        LedEvent::Cancelled { person_idx } => pressed.update(person_idx as int, false),
        LedEvent::Sync { pressed: all } => all@,
    }
}

impl LedState {
    /// Applies one event: a press lights that person's LED, a cancel turns
    /// it off, a sync overwrites everyone's. Occupancy is untouched.
    pub fn apply(&mut self, event: LedEvent)
        requires
            led_event_ok(event),
        ensures
            final(self).pressed@ == pressed_after(old(self).pressed@, event),
            final(self).occupied == old(self).occupied,
    {
        match event {
            LedEvent::Pressed { person_idx } => self.set_pressed(person_idx, true),
            LedEvent::Cancelled { person_idx } => self.set_pressed(person_idx, false),
            LedEvent::Sync { pressed } => self.set_all_pressed(pressed),
        }
    }
}

/// A sync replaces every person's flag with the server's, whatever the
/// LEDs showed before: a flag the server reports clear is cleared (this is
/// how the daily reset reaches the LEDs), and two states synced from the
/// same server report end up the same.
pub proof fn law_sync_overwrites_all(before: Seq<bool>, other: Seq<bool>, all: [bool; NUM_PEOPLE])
    requires
        before.len() == NUM_PEOPLE,
        other.len() == NUM_PEOPLE,
    ensures
        pressed_after(before, LedEvent::Sync { pressed: all }).len() == NUM_PEOPLE,
        forall|i: int|
            0 <= i < NUM_PEOPLE ==> #[trigger] pressed_after(before, LedEvent::Sync { pressed: all })[i]
                == all[i],
        pressed_after(before, LedEvent::Sync { pressed: all }) == pressed_after(
            other,
            LedEvent::Sync { pressed: all },
        ),
{
}

/// A press lights exactly that person's LED and a cancel turns exactly
/// that person's off; everyone else's stays as it was.
pub proof fn law_press_and_cancel_touch_one_person(before: Seq<bool>, p: usize, i: int)
    requires
        before.len() == NUM_PEOPLE,
        p < NUM_PEOPLE,
        0 <= i < NUM_PEOPLE,
    ensures
        pressed_after(before, LedEvent::Pressed { person_idx: p }).len() == NUM_PEOPLE,
        pressed_after(before, LedEvent::Cancelled { person_idx: p }).len() == NUM_PEOPLE,
        pressed_after(before, LedEvent::Pressed { person_idx: p })[p as int],
        !pressed_after(before, LedEvent::Cancelled { person_idx: p })[p as int],
        i != p ==> pressed_after(before, LedEvent::Pressed { person_idx: p })[i] == before[i],
        i != p ==> pressed_after(before, LedEvent::Cancelled { person_idx: p })[i] == before[i],
{
}

} // verus!
