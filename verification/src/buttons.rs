//! How one person's button is interpreted. A press (pull-up input, button
//! to ground, so pressed reads low) that is released within
//! `BUTTON_LONG_PRESS_MS` registers that person's press; holding it longer
//! cancels their press for today instead, plays no press melody, and the
//! release that ends the hold is not taken for a new press.
use vstd::prelude::*;

use crate::debounce::Level;

verus! {

/// Where one button is in its press.
#[derive(Clone, Copy, Debug, PartialEq, Eq, Structural)]
pub enum ButtonPhase {
    /// Waiting for the button to settle pressed.
    Idle,
    /// Settled pressed; waiting for a release or the long-press deadline.
    Held,
    /// A long press cancelled; waiting for the button to be let go.
    Swallowing,
}

/// What the button's task observed.
#[derive(Clone, Copy, Debug, PartialEq, Eq, Structural)]
pub enum ButtonEvent {
    /// The debouncer reported a new stable level.
    Settled(Level),
    /// The long-press deadline passed without a settled change; the raw
    /// level read at that moment.
    LongPressElapsed(Level),
    /// The raw level read while swallowing the rest of a hold.
    Sampled(Level),
}

/// What to register for the person.
#[derive(Clone, Copy, Debug, PartialEq, Eq, Structural)]
pub enum ButtonAction {
    Nothing,
    /// Their press: outbox, LED on, their melody.
    Press,
    /// Their cancel: outbox, LED off, the cancel sound.
    Cancel,
}

/// What the task has to wait for next.
#[derive(Clone, Copy, Debug, PartialEq, Eq, Structural)]
pub enum ButtonWait {
    /// The next debounced level.
    Settle,
    /// The next debounced level, for at most `BUTTON_LONG_PRESS_MS`.
    SettleWithin,
    /// A raw read of the current level.
    Sample,
}

/// The wait that goes with each phase.
pub open spec fn wait_for(phase: ButtonPhase) -> ButtonWait {
    match phase {
        ButtonPhase::Idle => ButtonWait::Settle,
        ButtonPhase::Held => ButtonWait::SettleWithin,
        ButtonPhase::Swallowing => ButtonWait::Sample,
    }
}

/// One step of the button's interpretation.
pub open spec fn button_step_spec(phase: ButtonPhase, event: ButtonEvent) -> (
    ButtonPhase,
    ButtonAction,
    ButtonWait,
) {
    match (phase, event) {
        (ButtonPhase::Idle, ButtonEvent::Settled(level)) => if level == Level::Low {
            (ButtonPhase::Held, ButtonAction::Nothing, ButtonWait::SettleWithin)
        } else {
            (ButtonPhase::Idle, ButtonAction::Nothing, ButtonWait::Settle)
        },
        // Released within the long-press time: a plain press.
        (ButtonPhase::Held, ButtonEvent::Settled(_)) => (
            ButtonPhase::Idle,
            ButtonAction::Press,
            ButtonWait::Settle,
        ),
        // The deadline passed; a release landing right at it still counts
        // as a press, otherwise the hold cancels.
        (ButtonPhase::Held, ButtonEvent::LongPressElapsed(level)) => if level != Level::Low {
            (ButtonPhase::Idle, ButtonAction::Press, ButtonWait::Settle)
        } else {
            (ButtonPhase::Swallowing, ButtonAction::Cancel, ButtonWait::Sample)
        },
        // Swallow the rest of the hold: while still low, wait for the next
        // debounced level and look again.
        (ButtonPhase::Swallowing, ButtonEvent::Sampled(level)) => if level == Level::Low {
            (ButtonPhase::Swallowing, ButtonAction::Nothing, ButtonWait::Settle)
        } else {
            (ButtonPhase::Idle, ButtonAction::Nothing, ButtonWait::Settle)
        },
        (ButtonPhase::Swallowing, ButtonEvent::Settled(_)) => (
            ButtonPhase::Swallowing,
            ButtonAction::Nothing,
            ButtonWait::Sample,
        ),
        // An observation the current wait cannot produce changes nothing.
        _ => (phase, ButtonAction::Nothing, wait_for(phase)),
    }
}

/// One step of the button's interpretation: the next phase, what to
/// register, and what to wait for next.
pub fn button_step(phase: ButtonPhase, event: ButtonEvent) -> (r: (
    ButtonPhase,
    ButtonAction,
    ButtonWait,
))
    ensures
        r == button_step_spec(phase, event),
{
    match (phase, event) {
        (ButtonPhase::Idle, ButtonEvent::Settled(level)) => if level == Level::Low {
            (ButtonPhase::Held, ButtonAction::Nothing, ButtonWait::SettleWithin)
        } else {
            (ButtonPhase::Idle, ButtonAction::Nothing, ButtonWait::Settle)
        },
        (ButtonPhase::Held, ButtonEvent::Settled(_)) => (
            ButtonPhase::Idle,
            ButtonAction::Press,
            ButtonWait::Settle,
        ),
        (ButtonPhase::Held, ButtonEvent::LongPressElapsed(level)) => if level != Level::Low {
            (ButtonPhase::Idle, ButtonAction::Press, ButtonWait::Settle)
        } else {
            (ButtonPhase::Swallowing, ButtonAction::Cancel, ButtonWait::Sample)
        },
        (ButtonPhase::Swallowing, ButtonEvent::Sampled(level)) => if level == Level::Low {
            (ButtonPhase::Swallowing, ButtonAction::Nothing, ButtonWait::Settle)
        } else {
            (ButtonPhase::Idle, ButtonAction::Nothing, ButtonWait::Settle)
        },
        (ButtonPhase::Swallowing, ButtonEvent::Settled(_)) => (
            ButtonPhase::Swallowing,
            ButtonAction::Nothing,
            ButtonWait::Sample,
        ),
        (ButtonPhase::Idle, _) => (phase, ButtonAction::Nothing, ButtonWait::Settle),
        (ButtonPhase::Held, _) => (phase, ButtonAction::Nothing, ButtonWait::SettleWithin),
        (ButtonPhase::Swallowing, _) => (phase, ButtonAction::Nothing, ButtonWait::Sample),
    }
}

/// The melody to play for an action of person `person_idx`: their own for
/// a press, the cancel sound for a cancel, none otherwise.
pub fn melody_for(action: ButtonAction, person_idx: usize) -> (m: Option<usize>)
    ensures
        action == ButtonAction::Press ==> m == Some(person_idx),
        action == ButtonAction::Cancel ==> m == Some(crate::music::CANCEL_MELODY),
        action == ButtonAction::Nothing ==> m is None,
{
    match action {
        ButtonAction::Press => Some(person_idx),
        ButtonAction::Cancel => Some(crate::music::CANCEL_MELODY),
        ButtonAction::Nothing => None,
    }
}

/// Presses and cancels are registered only when a settled press ends: a
/// release within the long-press time (or right at its deadline) is a
/// press, a hold past it is a cancel and never also a press.
pub proof fn law_actions_only_end_a_held_press(phase: ButtonPhase, event: ButtonEvent)
    ensures
        button_step_spec(phase, event).1 != ButtonAction::Nothing ==> phase == ButtonPhase::Held,
        button_step_spec(phase, event).1 == ButtonAction::Press ==> (event matches ButtonEvent::Settled(_)
            || event == ButtonEvent::LongPressElapsed(Level::High)),
        button_step_spec(phase, event).1 == ButtonAction::Cancel ==> event
            == ButtonEvent::LongPressElapsed(Level::Low),
        phase == ButtonPhase::Held && !(event is Sampled) ==> button_step_spec(phase, event).0
            != ButtonPhase::Held,
{
}

/// The release that ends a cancelling hold is not taken for a new press:
/// while swallowing, nothing is registered and the button only goes back
/// to idle once it reads released, from where a settled release registers
/// nothing either.
pub proof fn law_release_after_cancel_is_not_a_press(event: ButtonEvent)
    ensures
        button_step_spec(ButtonPhase::Swallowing, event).1 == ButtonAction::Nothing,
        button_step_spec(ButtonPhase::Swallowing, event).0 == ButtonPhase::Idle ==> event
            == ButtonEvent::Sampled(Level::High),
        button_step_spec(ButtonPhase::Idle, ButtonEvent::Settled(Level::High)) == (
            ButtonPhase::Idle,
            ButtonAction::Nothing,
            ButtonWait::Settle,
        ),
{
}

/// The next wait always matches the phase the button is in.
pub proof fn law_wait_matches_phase(phase: ButtonPhase, event: ButtonEvent)
    ensures
        button_step_spec(phase, event).2 == wait_for(button_step_spec(phase, event).0)
            || (button_step_spec(phase, event).0 == ButtonPhase::Swallowing
            && button_step_spec(phase, event).2 == ButtonWait::Settle),
{
}

} // verus!
