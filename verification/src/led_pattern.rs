//! What the NeoPixels show, kept apart from how they are driven: the state
//! that decides the look (who has pressed, whether the bath is occupied) and
//! the look itself (`render`, a pure function of that state and the time).
//!
//! The state is plain data, not a queue of events: whoever learns something
//! new overwrites it with the `set_*` methods (the last write wins), and the
//! next frame shows it.
use vstd::prelude::*;

use crate::config::{NEOPIXEL_FRAME_INTERVAL_MS, NUM_PEOPLE};

verus! {

/// One LED's color, 8 bits per channel.
#[derive(Clone, Copy, Debug, PartialEq, Eq, Structural)]
pub struct Color {
    pub r: u8,
    pub g: u8,
    pub b: u8,
}

/// What the look depends on.
#[derive(Clone, Copy, Debug)]
pub struct LedState {
    /// Who has pressed today, in person order.
    pub pressed: [bool; NUM_PEOPLE],
    /// The occupancy sensor's debounced state.
    pub occupied: bool,
}

/// One full dark, bright, dark breathing cycle.
pub const BREATH_PERIOD_MS: u64 = 6000;
/// Brightest value of each channel at the top of the breath.
pub const BREATH_PEAK: u32 = 40;
/// How much later each LED's breath runs than the previous one's, so the
/// light appears to travel along the chain.
pub const BREATH_PHASE_STEP_MS: u64 = 600;

/// The color each person lights up in once they have pressed today: blue,
/// pink, green, orange, yellow. Dim, and none of them whitish.
pub open spec fn pressed_color(idx: int) -> Color {
    if idx == 0 {
        Color { r: 0, g: 0, b: 48 }
    } else if idx == 1 {
        Color { r: 40, g: 0, b: 20 }
    } else if idx == 2 {
        Color { r: 0, g: 40, b: 0 }
    } else if idx == 3 {
        Color { r: 48, g: 16, b: 0 }
    } else {
        Color { r: 40, g: 28, b: 0 }
    }
}

/// The position within the breath: rising for the first half period,
/// falling for the second.
pub open spec fn breath_rise(now_ms: int) -> int {
    let phase = now_ms % (BREATH_PERIOD_MS as int);
    if phase < BREATH_PERIOD_MS / 2 {
        phase
    } else {
        BREATH_PERIOD_MS - phase
    }
}

/// The brightness of the breath at `now_ms`: the triangle wave squared, so
/// the perceived brightness changes evenly, scaled to `BREATH_PEAK`.
pub open spec fn breath_level(now_ms: int) -> int {
    let half = (BREATH_PERIOD_MS / 2) as int;
    breath_rise(now_ms) * breath_rise(now_ms) * (BREATH_PEAK as int) / (half * half)
}

/// Gray at `level` on all three channels.
pub open spec fn white(level: int) -> Color {
    Color { r: level as u8, g: level as u8, b: level as u8 }
}

/// The color of person `idx`'s LED at `now_ms`: their own color once they
/// have pressed; otherwise breathing white, `idx` phase steps behind LED 0,
/// while the bath is occupied; otherwise off.
pub open spec fn led_color(pressed: bool, occupied: bool, now_ms: int, idx: int) -> Color {
    if pressed {
        pressed_color(idx)
    } else if occupied {
        white(
            breath_level(now_ms + BREATH_PERIOD_MS as int - idx * BREATH_PHASE_STEP_MS as int),
        )
    } else {
        Color { r: 0, g: 0, b: 0 }
    }
}

/// The latest time a frame can be drawn for (the breath offset must not
/// overflow the clock).
pub open spec fn frame_time_ok(now_ms: u64) -> bool {
    now_ms + BREATH_PERIOD_MS <= u64::MAX
}

/// Whether a frame shows the breath at all: some LED is unpressed while
/// the bath is occupied. Only then does the frame's time matter.
pub open spec fn breathing(pressed: [bool; NUM_PEOPLE], occupied: bool) -> bool {
    occupied && exists|i: int| 0 <= i < NUM_PEOPLE && !pressed[i]
}

proof fn lemma_breath_bounds(t: int)
    requires
        t >= 0,
    ensures
        0 <= breath_rise(t) <= 3000,
        0 <= breath_level(t) <= BREATH_PEAK,
{
    let r = breath_rise(t);
    assert(0 <= r * r <= 3000 * 3000) by (nonlinear_arith)
        requires
            0 <= r <= 3000,
    ;
    assert(r * r * 40 <= 3000 * 3000 * 40) by (nonlinear_arith)
        requires
            0 <= r * r <= 3000 * 3000,
    ;
    assert(0 <= r * r * 40 / (3000int * 3000int) <= 40) by (nonlinear_arith)
        requires
            0 <= r * r * 40 <= 3000 * 3000 * 40,
    ;
}

/// White at the breath's brightness for `now_ms`.
fn breath_color(now_ms: u64) -> (c: Color)
    ensures
        c == white(breath_level(now_ms as int)),
        c.r as int == breath_level(now_ms as int),
{
    let half: u64 = BREATH_PERIOD_MS / 2;
    let phase: u64 = now_ms % BREATH_PERIOD_MS;
    let rising: u64 = if phase < half {
        phase
    } else {
        BREATH_PERIOD_MS - phase
    };
    proof {
        lemma_breath_bounds(now_ms as int);
    }
    let rising: u32 = rising as u32;
    let half: u32 = half as u32;
    assert(half == 3000);
    assert(rising == breath_rise(now_ms as int));
    assert(rising * rising <= 9_000_000 && half * half == 9_000_000) by (nonlinear_arith)
        requires
            rising <= 3000,
            half == 3000,
    ;
    let level: u32 = rising * rising * BREATH_PEAK / (half * half);
    assert(level == breath_level(now_ms as int));
    let level: u8 = level as u8;
    Color { r: level, g: level, b: level }
}

/// The color person `idx` lights up in once they have pressed today.
fn pressed_color_of(idx: usize) -> (c: Color)
    requires
        idx < NUM_PEOPLE,
    ensures
        c == pressed_color(idx as int),
{
    if idx == 0 {
        Color { r: 0, g: 0, b: 48 }
    } else if idx == 1 {
        Color { r: 40, g: 0, b: 20 }
    } else if idx == 2 {
        Color { r: 0, g: 40, b: 0 }
    } else if idx == 3 {
        Color { r: 48, g: 16, b: 0 }
    } else {
        Color { r: 40, g: 28, b: 0 }
    }
}

/// The color for one person's LED in the frame at `now_ms`.
fn render_one(pressed: &[bool; NUM_PEOPLE], occupied: bool, now_ms: u64, person_idx: usize) -> (c:
    Color)
    requires
        person_idx < NUM_PEOPLE,
        !pressed[person_idx as int] && occupied ==> frame_time_ok(now_ms),
    ensures
        c == led_color(pressed[person_idx as int], occupied, now_ms as int, person_idx as int),
{
    if pressed[person_idx] {
        pressed_color_of(person_idx)
    } else if occupied {
        // Delaying by `delay` means sampling the breath at `now - delay`;
        // adding a whole period first keeps that from underflowing.
        let delay: u64 = person_idx as u64 * BREATH_PHASE_STEP_MS;
        breath_color(now_ms + BREATH_PERIOD_MS - delay)
    } else {
        Color { r: 0, g: 0, b: 0 }
    }
}

/// The colors for one frame, one per person in person order. `now_ms` is
/// any monotonic clock in milliseconds (the breathing phase is taken from
/// it, so it stays regular however often frames are drawn).
pub fn render(pressed: &[bool; NUM_PEOPLE], occupied: bool, now_ms: u64) -> (colors: [Color;
    NUM_PEOPLE])
    requires
        breathing(*pressed, occupied) ==> frame_time_ok(now_ms),
    ensures
        forall|i: int|
            0 <= i < NUM_PEOPLE ==> colors[i] == led_color(pressed[i], occupied, now_ms as int, i),
{
    assert forall|i: int| 0 <= i < NUM_PEOPLE && !pressed[i] && occupied implies frame_time_ok(
        now_ms,
    ) by {
        assert(breathing(*pressed, occupied));
    }
    let colors = [
        render_one(pressed, occupied, now_ms, 0),
        render_one(pressed, occupied, now_ms, 1),
        render_one(pressed, occupied, now_ms, 2),
        render_one(pressed, occupied, now_ms, 3),
        render_one(pressed, occupied, now_ms, 4),
    ];
    assert(colors[0] == led_color(pressed[0], occupied, now_ms as int, 0));
    assert(colors[1] == led_color(pressed[1], occupied, now_ms as int, 1));
    assert(colors[2] == led_color(pressed[2], occupied, now_ms as int, 2));
    assert(colors[3] == led_color(pressed[3], occupied, now_ms as int, 3));
    assert(colors[4] == led_color(pressed[4], occupied, now_ms as int, 4));
    colors
}

impl LedState {
    /// Nobody has pressed, and the bath counts as unoccupied until the
    /// occupancy sensor reports.
    pub fn new() -> (s: LedState)
        ensures
            forall|i: int| 0 <= i < NUM_PEOPLE ==> !s.pressed[i],
            !s.occupied,
    {
        LedState { pressed: [false; NUM_PEOPLE], occupied: false }
    }

    /// One person pressed (`true`) or cancelled with a long press (`false`).
    pub fn set_pressed(&mut self, person_idx: usize, pressed: bool)
        requires
            person_idx < NUM_PEOPLE,
        ensures
            final(self).pressed@ == old(self).pressed@.update(person_idx as int, pressed),
            final(self).occupied == old(self).occupied,
    {
        self.pressed[person_idx] = pressed;
    }

    /// Everyone's pressed state at once, from the server's LED state.
    pub fn set_all_pressed(&mut self, pressed: [bool; NUM_PEOPLE])
        ensures
            final(self).pressed == pressed,
            final(self).occupied == old(self).occupied,
    {
        self.pressed = pressed;
    }

    /// The occupancy sensor's debounced state.
    pub fn set_occupied(&mut self, occupied: bool)
        ensures
            final(self).pressed == old(self).pressed,
            final(self).occupied == occupied,
    {
        self.occupied = occupied;
    }

    /// The colors to write for the frame at `now_ms`, from the state as it
    /// is right now, so a change shows in the very next frame.
    pub fn frame(&self, now_ms: u64) -> (colors: [Color; NUM_PEOPLE])
        requires
            breathing(self.pressed, self.occupied) ==> frame_time_ok(now_ms),
        ensures
            forall|i: int|
                0 <= i < NUM_PEOPLE ==> colors[i] == led_color(
                    self.pressed[i],
                    self.occupied,
                    now_ms as int,
                    i,
                ),
    {
        render(&self.pressed, self.occupied, now_ms)
    }
}

/// When the next frame is due: one interval after the previous deadline
/// (a fixed cadence that does not drift with the write time), but never in
/// the past, so falling behind restarts from now instead of bursting.
pub fn next_frame_due(previous_due_ms: u64, now_ms: u64) -> (due: u64)
    requires
        previous_due_ms + NEOPIXEL_FRAME_INTERVAL_MS <= u64::MAX,
    ensures
        due == if previous_due_ms + NEOPIXEL_FRAME_INTERVAL_MS >= now_ms {
            previous_due_ms + NEOPIXEL_FRAME_INTERVAL_MS
        } else {
            now_ms as int
        },
{
    let candidate: u64 = previous_due_ms + NEOPIXEL_FRAME_INTERVAL_MS;
    if candidate >= now_ms {
        candidate
    } else {
        now_ms
    }
}

/// The breath repeats every period.
pub proof fn law_breath_is_periodic(t: int)
    requires
        t >= 0,
    ensures
        breath_level(t + BREATH_PERIOD_MS as int) == breath_level(t),
{
    assert((t + 6000) % 6000 == t % 6000) by (nonlinear_arith);
}

/// The breath stays within `0..=BREATH_PEAK`: dark at the start of each
/// period, brightest at its middle.
pub proof fn law_breath_range(t: int)
    requires
        t >= 0,
    ensures
        0 <= breath_level(t) <= BREATH_PEAK,
        t % (BREATH_PERIOD_MS as int) == 0 ==> breath_level(t) == 0,
        t % (BREATH_PERIOD_MS as int) == BREATH_PERIOD_MS / 2 ==> breath_level(t) == BREATH_PEAK,
{
    lemma_breath_bounds(t);
    if t % (BREATH_PERIOD_MS as int) == 0 {
        assert(breath_rise(t) == 0);
        assert(breath_level(t) == 0 * 0 * 40int / (3000int * 3000int));
    }
    if t % (BREATH_PERIOD_MS as int) == BREATH_PERIOD_MS / 2 {
        assert(breath_rise(t) == 3000);
        assert(breath_level(t) == 3000int * 3000int * 40int / (3000int * 3000int));
        assert(3000int * 3000int * 40int / (3000int * 3000int) == 40) by (nonlinear_arith);
    }
}

/// The breath falls the way it rose: within a period, the brightness at
/// `x` ms is the brightness at `x` ms before the period's end.
pub proof fn law_breath_is_symmetric(x: int)
    requires
        0 <= x <= BREATH_PERIOD_MS,
    ensures
        breath_level(x) == breath_level(BREATH_PERIOD_MS - x),
{
    assert(breath_rise(x) == breath_rise(BREATH_PERIOD_MS - x));
}

/// Over the first half of a period the breath never dims: a later moment
/// is at least as bright as an earlier one.
pub proof fn law_breath_rises_over_first_half(x: int, y: int)
    requires
        0 <= x <= y <= BREATH_PERIOD_MS / 2,
    ensures
        breath_level(x) <= breath_level(y),
{
    assert(breath_rise(x) == x);
    assert(breath_rise(y) == y);
    assert(x * x * 40 / (3000int * 3000int) <= y * y * 40 / (3000int * 3000int)) by (nonlinear_arith)
        requires
            0 <= x <= y,
    ;
}

/// The breath appears to travel along the chain: each unpressed LED shows,
/// one phase step later, what the LED before it shows now.
pub proof fn law_breath_travels_along_chain(occupied: bool, now_ms: int, i: int)
    requires
        0 <= i,
        i + 1 < NUM_PEOPLE,
    ensures
        led_color(false, occupied, now_ms + BREATH_PHASE_STEP_MS as int, i + 1) == led_color(
            false,
            occupied,
            now_ms,
            i,
        ),
{
    assert(now_ms + 600 + 6000 - (i + 1) * 600 == now_ms + 6000 - i * 600) by (nonlinear_arith);
}

/// A pressed LED shows its person's color whatever the occupancy or time,
/// and an unpressed one is dark whenever the bath is unoccupied.
pub proof fn law_pressed_is_steady(occupied: bool, t1: int, t2: int, i: int)
    ensures
        led_color(true, occupied, t1, i) == led_color(true, !occupied, t2, i),
        led_color(false, false, t1, i) == (Color { r: 0, g: 0, b: 0 }),
{
}

/// No pressed color can be mistaken for the breathing white.
pub proof fn law_pressed_colors_are_not_white(i: int, level: int)
    requires
        0 <= i < NUM_PEOPLE,
        0 <= level <= BREATH_PEAK,
    ensures
        pressed_color(i) != white(level),
{
}

} // verus!
