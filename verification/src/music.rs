//! The fixed melodies (one per person, plus the "press cancelled" sound)
//! and the scheduling decisions of their playback: which note is due when,
//! and which of the two synth slots it goes to.
use vstd::prelude::*;

use crate::config::{AUDIO_TIME_UNIT_MS, NUM_PEOPLE};
use crate::waveform::NoteOn;

verus! {

/// Melody index of the "press cancelled" sound, one past the per-person
/// melodies.
pub const CANCEL_MELODY: usize = NUM_PEOPLE;

/// How long playback waits for a melody selection when nothing is due: an
/// hour, effectively forever, without risking clock overflow.
pub const IDLE_WAIT_MS: u64 = 3_600_000;

/// The latest clock value at which a melody may start: every note time
/// added to it must stay within the clock's range.
pub const LATEST_START_MS: u64 = 0xffff_fff6_0000_0009;

/// One entry of a melody: `time` and `duration` are in
/// `AUDIO_TIME_UNIT_MS` units, counted from when that melody started.
#[derive(Clone, Copy, Debug, PartialEq, Eq, Structural)]
pub struct NoteEvent {
    pub time: u32,
    pub pitch: u8,
    pub volume: u8,
    pub duration: u32,
}

/// The note event with these fields.
pub open spec fn ev(time: u32, pitch: u8, volume: u8, duration: u32) -> NoteEvent {
    NoteEvent { time, pitch, volume, duration }
}

/// The melody for index `idx`: persons 0 to 4 in order, then the cancel
/// sound (two low falling notes, unlike any person's tune).
pub open spec fn melody(idx: int) -> Seq<NoteEvent> {
    if idx == 0 {
        seq![ev(0, 60, 100, 20), ev(25, 64, 100, 20), ev(50, 67, 100, 30)]
    } else if idx == 1 {
        seq![ev(0, 67, 100, 20), ev(25, 64, 100, 20), ev(50, 60, 100, 30)]
    } else if idx == 2 {
        seq![ev(0, 60, 100, 15), ev(20, 62, 100, 15), ev(40, 64, 100, 15), ev(60, 65, 100, 30)]
    } else if idx == 3 {
        seq![ev(0, 72, 100, 15), ev(20, 69, 100, 15), ev(40, 65, 100, 30)]
    } else if idx == 4 {
        seq![ev(0, 60, 100, 10), ev(15, 60, 100, 10), ev(30, 60, 100, 10), ev(50, 67, 100, 40)]
    } else {
        seq![ev(0, 55, 100, 15), ev(20, 48, 100, 40)]
    }
}

/// A note event.
pub fn note(time: u32, pitch: u8, volume: u8, duration: u32) -> (n: NoteEvent)
    ensures
        n == ev(time, pitch, volume, duration),
{
    NoteEvent { time, pitch, volume, duration }
}

/// The melody selected by `idx` (a person index, or `CANCEL_MELODY`).
pub fn music_data(idx: usize) -> (score: Vec<NoteEvent>)
    requires
        idx <= CANCEL_MELODY,
    ensures
        score@ == melody(idx as int),
{
    let score = if idx == 0 {
        vec![note(0, 60, 100, 20), note(25, 64, 100, 20), note(50, 67, 100, 30)]
    } else if idx == 1 {
        vec![note(0, 67, 100, 20), note(25, 64, 100, 20), note(50, 60, 100, 30)]
    } else if idx == 2 {
        vec![note(0, 60, 100, 15), note(20, 62, 100, 15), note(40, 64, 100, 15), note(60, 65, 100, 30)]
    } else if idx == 3 {
        vec![note(0, 72, 100, 15), note(20, 69, 100, 15), note(40, 65, 100, 30)]
    } else if idx == 4 {
        vec![note(0, 60, 100, 10), note(15, 60, 100, 10), note(30, 60, 100, 10), note(50, 67, 100, 40)]
    } else {
        vec![note(0, 55, 100, 15), note(20, 48, 100, 40)]
    };
    assert(score@ =~= melody(idx as int));
    score
}

/// The playback position within the current melody.
pub struct Player {
    score: Vec<NoteEvent>,
    next_idx: usize,
    next_slot: usize,
    start_ms: u64,
}

/// The content of a [`Player`].
pub struct PlayerView {
    /// The melody being played (empty before the first selection).
    pub score: Seq<NoteEvent>,
    /// Index of the next note to dispatch.
    pub next_idx: int,
    /// Slot the next note goes to.
    pub next_slot: int,
    /// Clock value at which the current melody started.
    pub start_ms: u64,
}

impl View for Player {
    type V = PlayerView;

    closed spec fn view(&self) -> PlayerView {
        PlayerView {
            score: self.score@,
            next_idx: self.next_idx as int,
            next_slot: self.next_slot as int,
            start_ms: self.start_ms,
        }
    }
}

impl PlayerView {
    /// The score is empty (nothing selected yet) or one of the melodies;
    /// its notes are dispatched in order, alternating between the two
    /// slots from slot 0, and the start time leaves room for every note
    /// time.
    pub open spec fn wf(self) -> bool {
        &&& self.score.len() == 0 || exists|m: int|
            0 <= m <= CANCEL_MELODY && self.score == #[trigger] melody(m)
        &&& 0 <= self.next_idx <= self.score.len()
        &&& self.next_slot == self.next_idx % 2
        &&& self.start_ms <= LATEST_START_MS
    }

    /// When the next note is due, if there is one.
    pub open spec fn due_ms(self) -> int {
        self.start_ms + self.score[self.next_idx].time * AUDIO_TIME_UNIT_MS
    }

    /// How long to wait at `now_ms` before the next note is due: until its
    /// time (zero if already past), or `IDLE_WAIT_MS` when the melody is
    /// over.
    pub open spec fn wait_at(self, now_ms: u64) -> int {
        if self.next_idx < self.score.len() {
            if self.due_ms() >= now_ms {
                self.due_ms() - now_ms
            } else {
                0
            }
        } else {
            IDLE_WAIT_MS as int
        }
    }
}

/// The note-on for a melody entry.
pub open spec fn note_on_of(e: NoteEvent) -> NoteOn {
    NoteOn { pitch: e.pitch, volume: e.volume, duration: e.duration }
}

/// The player right after melody `m` was selected at `t`: at its first
/// note, on slot 0.
pub open spec fn selected(m: int, t: u64) -> PlayerView {
    PlayerView { score: melody(m), next_idx: 0, next_slot: 0, start_ms: t }
}

/// The player after the wait ran out with a note left: at the following
/// note, on the other slot.
pub open spec fn advanced(v: PlayerView) -> PlayerView {
    PlayerView { next_idx: v.next_idx + 1, next_slot: 1 - v.next_slot, ..v }
}

/// The player after `k` notes were dispatched.
pub open spec fn advanced_by(v: PlayerView, k: nat) -> PlayerView
    decreases k,
{
    if k == 0 {
        v
    } else {
        advanced(advanced_by(v, (k - 1) as nat))
    }
}

impl Player {
    /// Nothing selected yet.
    pub fn new(now_ms: u64) -> (p: Player)
        requires
            now_ms <= LATEST_START_MS,
        ensures
            p@.wf(),
            p@.score.len() == 0,
            p@.next_idx == 0,
            p@.start_ms == now_ms,
    {
        Player { score: Vec::new(), next_idx: 0, next_slot: 0, start_ms: now_ms }
    }

    /// How long to wait for a selection before the next note is due.
    pub fn wait_ms(&self, now_ms: u64) -> (wait: u64)
        requires
            self@.wf(),
        ensures
            wait == self@.wait_at(now_ms),
    {
        if self.next_idx < self.score.len() {
            let time: u64 = self.score[self.next_idx].time as u64;
            assert(time * 10 <= 0xffff_ffff * 10) by (nonlinear_arith)
                requires
                    time <= 0xffff_ffff,
            ;
            let due: u64 = self.start_ms + time * AUDIO_TIME_UNIT_MS;
            due.saturating_sub(now_ms)
        } else {
            IDLE_WAIT_MS
        }
    }

    /// Switches to melody `melody_idx` from its start at `now_ms`. Notes
    /// still sounding are left to ring out.
    pub fn select(&mut self, melody_idx: usize, now_ms: u64)
        requires
            old(self)@.wf(),
            melody_idx <= CANCEL_MELODY,
            now_ms <= LATEST_START_MS,
        ensures
            final(self)@.wf(),
            final(self)@ == selected(melody_idx as int, now_ms),
    {
        self.score = music_data(melody_idx);
        self.next_idx = 0;
        self.next_slot = 0;
        self.start_ms = now_ms;
    }

    /// The wait for the next note ran out: the note to dispatch and the
    /// slot it goes to, or nothing when the melody is over.
    pub fn on_timeout(&mut self) -> (r: Option<(usize, NoteOn)>)
        requires
            old(self)@.wf(),
        ensures
            final(self)@.wf(),
            final(self)@.score == old(self)@.score,
            final(self)@.start_ms == old(self)@.start_ms,
            old(self)@.next_idx < old(self)@.score.len() ==> r == Some(
                (
                    old(self)@.next_slot as usize,
                    note_on_of(old(self)@.score[old(self)@.next_idx]),
                ),
            ) && final(self)@ == advanced(old(self)@),
            old(self)@.next_idx >= old(self)@.score.len() ==> r is None && final(self)@
                == old(self)@,
    {
        if self.next_idx < self.score.len() {
            let n = self.score[self.next_idx];
            let slot: usize = self.next_slot;
            self.next_idx = self.next_idx + 1;
            self.next_slot = 1 - self.next_slot;
            Some((slot, NoteOn { pitch: n.pitch, volume: n.volume, duration: n.duration }))
        } else {
            None
        }
    }
}

/// After a selection, the `k`-th note dispatched is the melody's `k`-th
/// note and goes to slot `k % 2`, so consecutive notes alternate slots.
pub proof fn law_notes_alternate_slots(v: PlayerView)
    requires
        v.wf(),
        v.next_idx < v.score.len(),
    ensures
        v.next_slot == v.next_idx % 2,
        v.next_slot == 0 || v.next_slot == 1,
{
}

/// Each melody's notes are in time order, so dispatching them one after
/// the other plays them at their times.
pub proof fn law_melodies_in_time_order(idx: int, i: int, j: int)
    requires
        0 <= idx <= CANCEL_MELODY,
        0 <= i < j < melody(idx).len(),
    ensures
        melody(idx)[i].time < melody(idx)[j].time,
        melody(idx)[0].time == 0,
{
}

/// Every note of every melody is audible and well formed: played at the
/// table's volume of 100 (out of 127), with a valid MIDI pitch between C3
/// and C5, lasting a while, and released before the next note of the
/// melody is due.
pub proof fn law_melody_notes_audible(idx: int, i: int)
    requires
        0 <= idx <= CANCEL_MELODY,
        0 <= i < melody(idx).len(),
    ensures
        melody(idx)[i].volume == 100,
        48 <= melody(idx)[i].pitch <= 72,
        melody(idx)[i].duration > 0,
        i + 1 < melody(idx).len() ==> melody(idx)[i].time + melody(idx)[i].duration < melody(
            idx,
        )[i + 1].time,
{
}

/// The cancel sound is two low, falling notes: its second note is below
/// its first, and both are below every note of every person's melody.
pub proof fn law_cancel_sound_is_low_and_falling(idx: int, i: int)
    requires
        0 <= idx < CANCEL_MELODY,
        0 <= i < melody(idx).len(),
    ensures
        melody(CANCEL_MELODY as int).len() == 2,
        melody(CANCEL_MELODY as int)[1].pitch < melody(CANCEL_MELODY as int)[0].pitch,
        melody(CANCEL_MELODY as int)[0].pitch < melody(idx)[i].pitch,
{
}

/// Every person's button plays a different tune, and the cancel sound is
/// unlike all of them.
pub proof fn law_melodies_distinct(a: int, b: int)
    requires
        0 <= a <= CANCEL_MELODY,
        0 <= b <= CANCEL_MELODY,
        a != b,
    ensures
        melody(a) != melody(b),
{
    if melody(a) =~= melody(b) {
        assert(melody(a)[0] == melody(b)[0]);
        assert(melody(a)[1] == melody(b)[1]);
    }
}

/// Every note of every melody is due within its first 600 ms.
proof fn lemma_melody_times(m: int, i: int)
    requires
        0 <= m <= CANCEL_MELODY,
        0 <= i < melody(m).len(),
    ensures
        melody(m)[i].time <= 60,
{
}

/// Playback never waits longer than the idle hour: once the clock has
/// reached the start of the current melody, the wait for its next note is
/// at most its last note time, and with nothing left to play it is
/// exactly `IDLE_WAIT_MS`.
pub proof fn law_wait_is_bounded(v: PlayerView, now_ms: u64)
    requires
        v.wf(),
        now_ms >= v.start_ms,
    ensures
        0 <= v.wait_at(now_ms) <= IDLE_WAIT_MS,
        v.next_idx < v.score.len() ==> v.wait_at(now_ms) <= 60 * AUDIO_TIME_UNIT_MS,
{
    if v.next_idx < v.score.len() {
        let m = choose|m: int| 0 <= m <= CANCEL_MELODY && v.score == #[trigger] melody(m);
        lemma_melody_times(m, v.next_idx);
    }
}

/// After melody `m` is selected at `t`, the `k`-th note dispatched is the
/// melody's `k`-th note, on slot `k % 2`, due `time` units after `t`: a
/// new selection restarts from the first note, and the notes go out in
/// order on alternating slots.
pub proof fn law_selection_plays_melody_in_order(m: int, t: u64, k: nat)
    requires
        0 <= m <= CANCEL_MELODY,
        t <= LATEST_START_MS,
        k < melody(m).len(),
    ensures
        ({
            let w = advanced_by(selected(m, t), k);
            &&& w.wf()
            &&& w.next_idx == k
            &&& w.next_slot == k % 2
            &&& w.due_ms() == t + melody(m)[k as int].time * AUDIO_TIME_UNIT_MS
            &&& w.score[w.next_idx] == melody(m)[k as int]
        }),
{
    lemma_advanced_by(m, t, k);
    assert(advanced_by(selected(m, t), k).score == melody(m));
}

/// The player after `k` notes of a fresh selection, field by field.
proof fn lemma_advanced_by(m: int, t: u64, k: nat)
    ensures
        advanced_by(selected(m, t), k) == (PlayerView {
            score: melody(m),
            next_idx: k as int,
            next_slot: (k % 2) as int,
            start_ms: t,
        }),
    decreases k,
{
    if k > 0 {
        lemma_advanced_by(m, t, (k - 1) as nat);
    }
}

/// The wait is exactly the time left until the next note's due time, and
/// nothing is waited for once the due time has passed.
pub proof fn law_wait_reaches_due_time(v: PlayerView, now_ms: u64)
    requires
        v.wf(),
        v.next_idx < v.score.len(),
    ensures
        now_ms + v.wait_at(now_ms) >= v.due_ms(),
        now_ms <= v.due_ms() ==> now_ms + v.wait_at(now_ms) == v.due_ms(),
        now_ms >= v.due_ms() ==> v.wait_at(now_ms) == 0,
{
}

} // verus!
