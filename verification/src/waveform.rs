//! The integer side of the two synth slots: each slot is a sine-wavetable
//! oscillator whose note goes through idle, attack, release and damp phases.
//! The amplitude envelope itself (a float that approaches its target by a
//! constant proportion per sample) is run by the caller; a slot tells it,
//! per note-on and per sample, which way the envelope must go next, and
//! which wavetable sample the oscillator reads.
use vstd::prelude::*;

use crate::config::{AUDIO_SAMPLE_RATE_HZ, AUDIO_TIME_UNIT_MS, AUDIO_WAVETABLE_SAMPLES};

verus! {

/// One cycle of a sine wave, peak amplitude 16383 (so two slots summed at
/// full volume top out at 32766, inside the `i16` range):
/// `round(16383 * sin(2 * pi * i / 100))`.
pub const WAVETABLE: [i16; AUDIO_WAVETABLE_SAMPLES] = [
    0, 1029, 2053, 3070, 4074, 5063, 6031, 6976, 7893, 8778, 9630, 10443,
    11215, 11943, 12623, 13254, 13833, 14357, 14824, 15233, 15581, 15868, 16093, 16254,
    16351, 16383, 16351, 16254, 16093, 15868, 15581, 15233, 14824, 14357, 13833, 13254,
    12623, 11943, 11215, 10443, 9630, 8778, 7893, 6976, 6031, 5063, 4074, 3070,
    2053, 1029, 0, -1029, -2053, -3070, -4074, -5063, -6031, -6976, -7893, -8778,
    -9630, -10443, -11215, -11943, -12623, -13254, -13833, -14357, -14824, -15233, -15581, -15868,
    -16093, -16254, -16351, -16383, -16351, -16254, -16093, -15868, -15581, -15233, -14824, -14357,
    -13833, -13254, -12623, -11943, -11215, -10443, -9630, -8778, -7893, -6976, -6031, -5063,
    -4074, -3070, -2053, -1029,
];

/// Per-sample phase increment (Q16 fixed point) for each MIDI note number:
/// `round(65536 * 2^((pitch - 69) / 12))`, so note 69 (A4) reads the
/// wavetable one sample per output sample.
pub const PITCH_STEP_Q16: [u32; 128] = [
    1218, 1290, 1367, 1448, 1534, 1625, 1722, 1825, 1933, 2048,
    2170, 2299, 2435, 2580, 2734, 2896, 3069, 3251, 3444, 3649,
    3866, 4096, 4340, 4598, 4871, 5161, 5468, 5793, 6137, 6502,
    6889, 7298, 7732, 8192, 8679, 9195, 9742, 10321, 10935, 11585,
    12274, 13004, 13777, 14596, 15464, 16384, 17358, 18390, 19484, 20643,
    21870, 23170, 24548, 26008, 27554, 29193, 30929, 32768, 34716, 36781,
    38968, 41285, 43740, 46341, 49097, 52016, 55109, 58386, 61858, 65536,
    69433, 73562, 77936, 82570, 87480, 92682, 98193, 104032, 110218, 116772,
    123715, 131072, 138866, 147123, 155872, 165140, 174960, 185364, 196386, 208064,
    220436, 233544, 247431, 262144, 277732, 294247, 311744, 330281, 349920, 370728,
    392772, 416128, 440872, 467088, 494862, 524288, 555464, 588493, 623487, 660561,
    699841, 741455, 785544, 832255, 881744, 934175, 989724, 1048576, 1110928, 1176987,
    1246974, 1321123, 1399681, 1482910, 1571089, 1664511, 1763488, 1868350,
];

/// A trigger for a slot: pitch (MIDI note), volume (0..=127) and duration
/// in `AUDIO_TIME_UNIT_MS` units.
#[derive(Clone, Copy, Debug, PartialEq, Eq, Structural)]
pub struct NoteOn {
    pub pitch: u8,
    pub volume: u8,
    pub duration: u32,
}

/// Where a slot's note is in its life.
#[derive(Clone, Copy, Debug, PartialEq, Eq, Structural)]
pub enum Phase {
    Idle,
    Attack,
    Release,
    /// Rapidly silencing the current note because a new note-on interrupted
    /// it; the pending note starts once the amplitude has faded.
    Damp,
}

/// What the caller's amplitude envelope must do.
#[derive(Clone, Copy, Debug, PartialEq, Eq, Structural)]
pub enum EnvelopeChange {
    /// Nothing changes.
    Keep,
    /// Rise towards `(volume / 127)^2` at the attack rate.
    Attack { volume: u8 },
    /// Drop the amplitude to zero, then rise towards `(volume / 127)^2` at
    /// the attack rate.
    SilenceThenAttack { volume: u8 },
    /// Fall towards zero at the release rate.
    Release,
    /// Fall towards zero at the damp rate.
    Damp,
    /// Drop the amplitude to zero.
    Silence,
}

/// One synth slot's oscillator and note phase.
pub struct Slot {
    phase: Phase,
    phase_acc: u32,
    step: u32,
    elapsed_samples: u32,
    release_at_samples: u32,
    pending: Option<NoteOn>,
}

/// The content of a [`Slot`].
#[derive(Clone, Copy)]
pub struct SlotView {
    pub phase: Phase,
    /// Oscillator phase, Q16 fixed point in wavetable samples.
    pub phase_acc: u32,
    /// Phase increment per output sample.
    pub step: u32,
    /// Samples since the current attack started.
    pub elapsed_samples: u32,
    /// Sample count at which the attack turns into the release.
    pub release_at_samples: u32,
    /// The note to start once a damp has finished.
    pub pending: Option<NoteOn>,
}

impl View for Slot {
    type V = SlotView;

    closed spec fn view(&self) -> SlotView {
        SlotView {
            phase: self.phase,
            phase_acc: self.phase_acc,
            step: self.step,
            elapsed_samples: self.elapsed_samples,
            release_at_samples: self.release_at_samples,
            pending: self.pending,
        }
    }
}

/// Output samples per `AUDIO_TIME_UNIT_MS`.
pub open spec fn samples_per_unit() -> int {
    (AUDIO_SAMPLE_RATE_HZ as int * AUDIO_TIME_UNIT_MS as int) / 1000
}

/// The sample count at which a note of `duration` units is released
/// (kept in 32 bits).
pub open spec fn release_at(duration: u32) -> u32 {
    ((duration as int * samples_per_unit()) % 0x1_0000_0000) as u32
}

impl SlotView {
    /// The attack counter cannot run past the release point.
    pub open spec fn wf(self) -> bool {
        self.phase == Phase::Attack ==> (self.elapsed_samples == 0 || self.elapsed_samples
            < self.release_at_samples)
    }

    /// The slot right after `note` starts its attack.
    pub open spec fn attack_started(self, note: NoteOn) -> SlotView {
        SlotView {
            phase: Phase::Attack,
            phase_acc: 0,
            step: PITCH_STEP_Q16@[(note.pitch % 128) as int],
            elapsed_samples: 0,
            release_at_samples: release_at(note.duration),
            ..self
        }
    }

    /// A note-on: starts at once when idle; while sounding, damps the
    /// current note (keeping its pitch) and remembers this one; while
    /// already damping, just replaces the remembered note.
    pub open spec fn note_on(self, note: NoteOn) -> (SlotView, EnvelopeChange) {
        match self.phase {
            Phase::Idle => (self.attack_started(note), EnvelopeChange::Attack { volume: note.volume }),
            Phase::Damp => (SlotView { pending: Some(note), ..self }, EnvelopeChange::Keep),
            _ => (
                SlotView { phase: Phase::Damp, pending: Some(note), ..self },
                EnvelopeChange::Damp,
            ),
        }
    }

    /// The phase step of one sample, given whether the amplitude (already
    /// advanced for this sample) is at or below the minimum level.
    pub open spec fn phase_step(self, faded: bool) -> (SlotView, EnvelopeChange) {
        match self.phase {
            Phase::Attack => {
                let elapsed = (self.elapsed_samples + 1) as u32;
                if elapsed >= self.release_at_samples {
                    (
                        SlotView { phase: Phase::Release, elapsed_samples: elapsed, ..self },
                        EnvelopeChange::Release,
                    )
                } else {
                    (SlotView { elapsed_samples: elapsed, ..self }, EnvelopeChange::Keep)
                }
            },
            Phase::Release => {
                if faded {
                    (SlotView { phase: Phase::Idle, ..self }, EnvelopeChange::Silence)
                } else {
                    (self, EnvelopeChange::Keep)
                }
            },
            Phase::Damp => {
                if faded {
                    match self.pending {
                        Some(note) => (
                            SlotView { pending: None, ..self }.attack_started(note),
                            EnvelopeChange::SilenceThenAttack { volume: note.volume },
                        ),
                        None => (
                            SlotView { phase: Phase::Idle, pending: None, ..self },
                            EnvelopeChange::Silence,
                        ),
                    }
                } else {
                    (self, EnvelopeChange::Keep)
                }
            },
            Phase::Idle => (self, EnvelopeChange::Keep),
        }
    }

    /// The wavetable position the oscillator reads now.
    pub open spec fn table_index(self) -> int {
        (self.phase_acc as int / 0x1_0000) % (AUDIO_WAVETABLE_SAMPLES as int)
    }

    /// The oscillator after reading one sample.
    pub open spec fn advanced(self) -> SlotView {
        SlotView {
            phase_acc: ((self.phase_acc as int + self.step as int) % 0x1_0000_0000) as u32,
            ..self
        }
    }

    /// One whole sample: the phase step, then the oscillator reads the
    /// wavetable and advances.
    pub open spec fn tick(self, faded: bool) -> (SlotView, EnvelopeChange, i16) {
        let (s, change) = self.phase_step(faded);
        (s.advanced(), change, WAVETABLE@[s.table_index()])
    }
}

/// The wavetable sample at `idx`.
fn wavetable_sample(idx: usize) -> (v: i16)
    requires
        idx < AUDIO_WAVETABLE_SAMPLES,
    ensures
        v == WAVETABLE@[idx as int],
{
    WAVETABLE[idx]
}

/// The phase step for MIDI note `pitch`.
fn pitch_step(pitch: usize) -> (v: u32)
    requires
        pitch < 128,
    ensures
        v == PITCH_STEP_Q16@[pitch as int],
{
    PITCH_STEP_Q16[pitch]
}

impl Slot {
    /// An idle, silent slot.
    pub fn new() -> (s: Slot)
        ensures
            s@.wf(),
            s@ == (SlotView {
                phase: Phase::Idle,
                phase_acc: 0,
                step: 0,
                elapsed_samples: 0,
                release_at_samples: 0,
                pending: None,
            }),
    {
        Slot {
            phase: Phase::Idle,
            phase_acc: 0,
            step: 0,
            elapsed_samples: 0,
            release_at_samples: 0,
            pending: None,
        }
    }

    /// Where the slot's note is in its life.
    pub fn phase(&self) -> (p: Phase)
        ensures
            p == self@.phase,
    {
        self.phase
    }

    fn start_attack(&mut self, note: NoteOn)
        ensures
            final(self)@ == old(self)@.attack_started(note),
            final(self)@.wf(),
    {
        self.phase_acc = 0;
        let raw: u8 = note.pitch;
        let pitch: u8 = raw & 0x7f;
        assert(pitch == raw % 128) by (bit_vector)
            requires
                pitch == raw & 0x7f,
        ;
        self.step = pitch_step(pitch as usize);
        self.phase = Phase::Attack;
        self.elapsed_samples = 0;
        let samples_per_unit: u64 = (AUDIO_SAMPLE_RATE_HZ as u64 * AUDIO_TIME_UNIT_MS) / 1000;
        assert(samples_per_unit == 440);
        let duration: u64 = note.duration as u64;
        assert(duration * 440 <= 0xffff_ffff * 440) by (nonlinear_arith)
            requires
                duration <= 0xffff_ffff,
        ;
        let total: u64 = duration * samples_per_unit;
        let release: u32 = #[verifier::truncate] (total as u32);
        assert(release == total % 0x1_0000_0000) by (bit_vector)
            requires
                release == total as u32,
        ;
        self.release_at_samples = release;
    }

    /// Applies an incoming note-on (see [`SlotView::note_on`]) and returns
    /// what the amplitude envelope must do.
    pub fn note_on(&mut self, note: NoteOn) -> (change: EnvelopeChange)
        requires
            old(self)@.wf(),
        ensures
            (final(self)@, change) == old(self)@.note_on(note),
            final(self)@.wf(),
    {
        match self.phase {
            Phase::Idle => {
                self.start_attack(note);
                EnvelopeChange::Attack { volume: note.volume }
            },
            Phase::Damp => {
                self.pending = Some(note);
                EnvelopeChange::Keep
            },
            Phase::Attack | Phase::Release => {
                self.phase = Phase::Damp;
                self.pending = Some(note);
                EnvelopeChange::Damp
            },
        }
    }

    /// Advances the slot by one sample. `faded` says whether the amplitude,
    /// already advanced for this sample, is at or below the minimum level.
    /// Returns what the envelope must do and the wavetable sample to scale
    /// by the resulting amplitude.
    pub fn tick(&mut self, faded: bool) -> (r: (EnvelopeChange, i16))
        requires
            old(self)@.wf(),
        ensures
            (final(self)@, r.0, r.1) == old(self)@.tick(faded),
            final(self)@.wf(),
    {
        let change = match self.phase {
            Phase::Attack => {
                self.elapsed_samples = self.elapsed_samples + 1;
                if self.elapsed_samples >= self.release_at_samples {
                    self.phase = Phase::Release;
                    EnvelopeChange::Release
                } else {
                    EnvelopeChange::Keep
                }
            },
            Phase::Release => {
                if faded {
                    self.phase = Phase::Idle;
                    EnvelopeChange::Silence
                } else {
                    EnvelopeChange::Keep
                }
            },
            Phase::Damp => {
                if faded {
                    match self.pending.take() {
                        Some(note) => {
                            self.start_attack(note);
                            EnvelopeChange::SilenceThenAttack { volume: note.volume }
                        },
                        None => {
                            self.phase = Phase::Idle;
                            EnvelopeChange::Silence
                        },
                    }
                } else {
                    EnvelopeChange::Keep
                }
            },
            Phase::Idle => EnvelopeChange::Keep,
        };
        let ghost mid = self@;
        assert((mid, change) == old(self)@.phase_step(faded));
        let acc: u32 = self.phase_acc;
        let shifted: u32 = acc >> 16u32;
        assert(shifted == acc / 0x1_0000) by (bit_vector)
            requires
                shifted == acc >> 16u32,
        ;
        let idx: usize = shifted as usize % AUDIO_WAVETABLE_SAMPLES;
        self.phase_acc = self.phase_acc.wrapping_add(self.step);
        let sample = wavetable_sample(idx);
        (change, sample)
    }
}

/// The sum of the two slots' samples, saturated to the `i16` range.
pub open spec fn saturated(sum: int) -> int {
    if sum < i16::MIN {
        i16::MIN as int
    } else if sum > i16::MAX {
        i16::MAX as int
    } else {
        sum
    }
}

/// The 16 bits of a sample as an unsigned value (two's complement).
pub open spec fn sample_bits(v: int) -> int {
    if v < 0 {
        v + 0x1_0000
    } else {
        v
    }
}

/// The I2S word for two slot samples: their saturated sum in both the
/// upper and the lower half.
pub open spec fn mixed_word(s0: i16, s1: i16) -> int {
    sample_bits(saturated(s0 + s1)) * 0x1_0001
}

/// Mixes two slot samples into one I2S word (see [`mixed_word`]).
/// Overflow saturates at the maximum or minimum value.
pub fn mix(s0: i16, s1: i16) -> (word: u32)
    ensures
        word == mixed_word(s0, s1),
{
    let sum: i32 = s0 as i32 + s1 as i32;
    let mixed: i32 = if sum < i16::MIN as i32 {
        i16::MIN as i32
    } else if sum > i16::MAX as i32 {
        i16::MAX as i32
    } else {
        sum
    };
    let sample: i16 = mixed as i16;
    let bits: u16 = sample as u16;
    assert(bits == sample_bits(mixed as int)) by (bit_vector)
        requires
            -0x8000 <= mixed <= 0x7fff,
            sample == mixed as i16,
            bits == sample as u16,
    ;
    let word: u32 = bits as u32 * 0x1_0001;
    word
}

} // verus!

verus! {

/// The slot after `n` samples during which the amplitude never faded.
pub open spec fn run_unfaded(s: SlotView, n: nat) -> SlotView
    decreases n,
{
    if n == 0 {
        s
    } else {
        run_unfaded(s.tick(false).0, (n - 1) as nat)
    }
}

/// Octaves of A4 step exactly by powers of two; A4 itself (note 69) reads
/// the wavetable one sample per output sample, with no pitch error.
pub proof fn law_octaves_of_a4_are_exact()
    ensures
        PITCH_STEP_Q16@[69] == 0x1_0000,
        PITCH_STEP_Q16@[57] == 0x8000,
        PITCH_STEP_Q16@[81] == 0x2_0000,
        PITCH_STEP_Q16@[45] == 0x4000,
        PITCH_STEP_Q16@[93] == 0x4_0000,
        PITCH_STEP_Q16@[33] == 0x2000,
        PITCH_STEP_Q16@[105] == 0x8_0000,
        PITCH_STEP_Q16@[21] == 0x1000,
        PITCH_STEP_Q16@[117] == 0x10_0000,
        PITCH_STEP_Q16@[9] == 0x800,
{
}

/// The wavetable peaks at 16383, so two slots at full amplitude sum to at
/// most 32766 in magnitude, inside the `i16` range; and it is one sine
/// cycle: the second half is the first half negated.
pub proof fn law_wavetable_shape()
    ensures
        forall|i: int| 0 <= i < AUDIO_WAVETABLE_SAMPLES ==> -16383 <= #[trigger] WAVETABLE@[i] <= 16383,
        forall|i: int| 0 <= i < 50 ==> #[trigger] WAVETABLE@[i + 50] == -WAVETABLE@[i],
        WAVETABLE@[0] == 0,
        WAVETABLE@[25] == 16383,
        WAVETABLE@[75] == -16383,
{
    assert forall|i: int| 0 <= i < AUDIO_WAVETABLE_SAMPLES implies -16383 <= #[trigger] WAVETABLE@[i] <= 16383 by {
    }
    assert forall|i: int| 0 <= i < 50 implies #[trigger] WAVETABLE@[i + 50] == -WAVETABLE@[i] by {
    }
}

/// At A4 the oscillator reads the wavetable one sample per output sample:
/// starting from phase `n` (whole samples) it reads sample `n % 100` and
/// moves on to `n + 1`.
pub proof fn law_a4_reads_one_sample_per_sample(s: SlotView, faded: bool, n: int)
    requires
        s.phase == Phase::Idle,
        s.step == 0x1_0000,
        0 <= n < 0xffff,
        s.phase_acc == n * 0x1_0000,
    ensures
        s.tick(faded).2 == WAVETABLE@[n % 100],
        s.tick(faded).0.phase_acc == (n + 1) * 0x1_0000,
{
    assert((n * 0x1_0000) / 0x1_0000 == n) by (nonlinear_arith);
    assert(n * 0x1_0000 + 0x1_0000 < 0x1_0000_0000) by (nonlinear_arith)
        requires
            0 <= n < 0xffff,
    ;
}

/// A note sounds for exactly its duration: its attack lasts
/// `duration * 440` samples (10 ms units at 44 kHz), then it is released.
pub proof fn law_attack_lasts_duration(s: SlotView, n: nat)
    requires
        s.wf(),
        s.phase == Phase::Attack,
        s.elapsed_samples + n <= s.release_at_samples,
        s.elapsed_samples < s.release_at_samples,
    ensures
        n < s.release_at_samples - s.elapsed_samples ==> run_unfaded(s, n).phase == Phase::Attack
            && run_unfaded(s, n).elapsed_samples == s.elapsed_samples + n,
        n == s.release_at_samples - s.elapsed_samples ==> run_unfaded(s, n).phase
            == Phase::Release,
        run_unfaded(s, n).release_at_samples == s.release_at_samples,
    decreases n,
{
    if n > 0 {
        let t = s.tick(false).0;
        if s.elapsed_samples + 1 < s.release_at_samples {
            law_attack_lasts_duration(t, (n - 1) as nat);
        } else {
            assert(n == 1);
            assert(run_unfaded(t, 0) == t);
        }
    }
}

/// Where a note starts: at the beginning of the wavetable, at its pitch,
/// released after `duration * 440` samples.
pub proof fn law_attack_start(s: SlotView, note: NoteOn)
    ensures
        s.attack_started(note).phase == Phase::Attack,
        s.attack_started(note).phase_acc == 0,
        s.attack_started(note).elapsed_samples == 0,
        note.pitch < 128 ==> s.attack_started(note).step == PITCH_STEP_Q16@[note.pitch as int],
        note.duration * 440 < 0x1_0000_0000 ==> s.attack_started(note).release_at_samples
            == note.duration * 440,
{
}

/// A note-on that interrupts a sounding note first damps it (keeping its
/// pitch); once the amplitude has faded, the newest note-on received
/// meanwhile starts from silence, and earlier ones are dropped.
pub proof fn law_interrupt_damps_then_plays_latest(s: SlotView, a: NoteOn, b: NoteOn)
    requires
        s.phase == Phase::Attack || s.phase == Phase::Release,
    ensures
        s.note_on(a).1 == EnvelopeChange::Damp,
        s.note_on(a).0.phase == Phase::Damp,
        s.note_on(a).0.step == s.step,
        s.note_on(a).0.note_on(b).1 == EnvelopeChange::Keep,
        s.note_on(a).0.note_on(b).0.phase_step(false).0.phase == Phase::Damp,
        s.note_on(a).0.note_on(b).0.phase_step(true) == (
            SlotView { pending: None, ..s.note_on(a).0.note_on(b).0 }.attack_started(b),
            EnvelopeChange::SilenceThenAttack { volume: b.volume },
        ),
{
}

/// A note-on that interrupts a sounding note is remembered and played once
/// the damp has faded, even if no other note-on arrives meanwhile: it
/// starts from silence at the beginning of the wavetable, at its own pitch,
/// volume and duration, and nothing is left pending.
pub proof fn law_interrupting_note_plays_after_damp(s: SlotView, a: NoteOn)
    requires
        s.phase == Phase::Attack || s.phase == Phase::Release,
    ensures
        s.note_on(a).0.pending == Some(a),
        s.note_on(a).0.phase_step(false).0.pending == Some(a),
        ({
            let (t, change) = s.note_on(a).0.phase_step(true);
            &&& change == EnvelopeChange::SilenceThenAttack { volume: a.volume }
            &&& t.phase == Phase::Attack
            &&& t.pending is None
            &&& t.phase_acc == 0
            &&& t.elapsed_samples == 0
            &&& t.step == PITCH_STEP_Q16@[(a.pitch % 128) as int]
            &&& t.release_at_samples == release_at(a.duration)
        }),
{
}

/// The oscillator keeps running on every sample, in every phase, so a
/// released or damped note keeps its pitch while it fades: unless a
/// pending note starts this very sample, the slot reads the wavetable at
/// its current phase and moves on by its step (modulo 2^32), with the step
/// unchanged. A note that starts reads the first table entry and moves on
/// by its own step.
pub proof fn law_oscillator_always_advances(s: SlotView, faded: bool)
    ensures
        !(s.phase == Phase::Damp && faded && s.pending is Some) ==> {
            &&& s.tick(faded).0.step == s.step
            &&& s.tick(faded).0.phase_acc as int == (s.phase_acc as int + s.step as int)
                % 0x1_0000_0000
            &&& s.tick(faded).2 == WAVETABLE@[(s.phase_acc as int / 0x1_0000) % 100]
        },
        (s.phase == Phase::Damp && faded && s.pending is Some) ==> {
            &&& s.tick(faded).0.phase_acc == s.tick(faded).0.step
            &&& s.tick(faded).2 == WAVETABLE@[0]
        },
{
}

/// Higher notes step faster, and a note an octave up steps twice as fast
/// (to within the table's rounding of one unit).
pub proof fn law_pitch_steps_rise_by_octaves(p: int, q: int)
    requires
        0 <= p < q < 128,
    ensures
        PITCH_STEP_Q16@[p] < PITCH_STEP_Q16@[q],
        q == p + 12 ==> -1 <= PITCH_STEP_Q16@[q] - 2 * PITCH_STEP_Q16@[p] <= 1,
{
    lemma_pitch_steps_adjacent();
    lemma_pitch_steps_increase(p, q);
    lemma_pitch_steps_octave();
}

/// Each note steps faster than the one below it.
proof fn lemma_pitch_steps_adjacent()
    ensures
        forall|i: int| 0 <= i < 127 ==> #[trigger] PITCH_STEP_Q16@[i] < PITCH_STEP_Q16@[i + 1],
{
    assert forall|i: int| 0 <= i < 127 implies #[trigger] PITCH_STEP_Q16@[i] < PITCH_STEP_Q16@[i
        + 1] by {}
}

/// Each note an octave up steps twice as fast, to within one unit.
proof fn lemma_pitch_steps_octave()
    ensures
        forall|i: int|
            0 <= i < 116 ==> -1 <= #[trigger] PITCH_STEP_Q16@[i + 12] - 2 * PITCH_STEP_Q16@[i] <= 1,
{
    assert forall|i: int| 0 <= i < 116 implies -1 <= #[trigger] PITCH_STEP_Q16@[i + 12] - 2
        * PITCH_STEP_Q16@[i] <= 1 by {}
}

/// Strictly increasing between any two notes, from one note to the next.
proof fn lemma_pitch_steps_increase(p: int, q: int)
    requires
        0 <= p < q < 128,
        forall|i: int| 0 <= i < 127 ==> #[trigger] PITCH_STEP_Q16@[i] < PITCH_STEP_Q16@[i + 1],
    ensures
        PITCH_STEP_Q16@[p] < PITCH_STEP_Q16@[q],
    decreases q - p,
{
    if q > p + 1 {
        lemma_pitch_steps_increase(p, q - 1);
        assert(PITCH_STEP_Q16@[q - 1] < PITCH_STEP_Q16@[q]);
    } else {
        assert(PITCH_STEP_Q16@[p] < PITCH_STEP_Q16@[p + 1]);
    }
}

/// The wavetable is one sine cycle: it rises from 0 to its peak over the
/// first quarter, and each quarter mirrors the one before it.
pub proof fn law_wavetable_is_a_sine_cycle()
    ensures
        forall|i: int| 0 <= i < 25 ==> #[trigger] WAVETABLE@[i] < WAVETABLE@[i + 1],
        forall|i: int| 0 <= i <= 25 ==> #[trigger] WAVETABLE@[25 - i] == WAVETABLE@[25 + i],
        forall|i: int| 0 < i < 50 ==> #[trigger] WAVETABLE@[i] > 0,
{
    assert forall|i: int| 0 <= i < 25 implies #[trigger] WAVETABLE@[i] < WAVETABLE@[i + 1] by {}
    assert forall|i: int| 0 <= i <= 25 implies #[trigger] WAVETABLE@[25 - i] == WAVETABLE@[25
        + i] by {}
    assert forall|i: int| 0 < i < 50 implies #[trigger] WAVETABLE@[i] > 0 by {}
}

/// An idle slot starts a note-on at once: attack towards the note's
/// volume, from the start of the wavetable, at its pitch and duration,
/// and nothing pending.
pub proof fn law_idle_note_on_starts_at_once(s: SlotView, a: NoteOn)
    requires
        s.phase == Phase::Idle,
    ensures
        s.note_on(a).1 == (EnvelopeChange::Attack { volume: a.volume }),
        s.note_on(a).0.phase == Phase::Attack,
        s.note_on(a).0.pending == s.pending,
        s.note_on(a).0.phase_acc == 0,
        s.note_on(a).0.elapsed_samples == 0,
        s.note_on(a).0.step == PITCH_STEP_Q16@[(a.pitch % 128) as int],
        s.note_on(a).0.release_at_samples == release_at(a.duration),
{
}

/// A damp keeps its note's pitch until the amplitude has faded; with no
/// note pending it then falls silent and idle.
pub proof fn law_damp_without_pending_goes_idle(s: SlotView)
    requires
        s.phase == Phase::Damp,
        s.pending is None,
    ensures
        s.phase_step(false).0 == s,
        s.phase_step(false).1 == EnvelopeChange::Keep,
        s.phase_step(true).0.phase == Phase::Idle,
        s.phase_step(true).0.pending is None,
        s.phase_step(true).1 == EnvelopeChange::Silence,
{
}

/// A released note falls silent and idle once its amplitude has faded; an
/// idle slot starts a note-on at once.
pub proof fn law_release_then_idle(s: SlotView, note: NoteOn)
    requires
        s.phase == Phase::Release,
    ensures
        s.phase_step(true).0.phase == Phase::Idle,
        s.phase_step(true).1 == EnvelopeChange::Silence,
        s.phase_step(true).0.note_on(note) == (
            s.phase_step(true).0.attack_started(note),
            EnvelopeChange::Attack { volume: note.volume },
        ),
{
}

/// The I2S word carries the same sample in both channels, and that sample
/// is the exact sum of the two slots whenever the sum fits in `i16`.
pub proof fn law_mix_fills_both_channels(s0: i16, s1: i16)
    ensures
        mixed_word(s0, s1) % 0x1_0000 == mixed_word(s0, s1) / 0x1_0000,
        0 <= mixed_word(s0, s1) < 0x1_0000_0000,
        i16::MIN <= s0 + s1 <= i16::MAX ==> saturated(s0 + s1) == s0 + s1,
        s0 + s1 > i16::MAX ==> saturated(s0 + s1) == i16::MAX,
        s0 + s1 < i16::MIN ==> saturated(s0 + s1) == i16::MIN,
{
    let b = sample_bits(saturated(s0 + s1));
    assert(0 <= b < 0x1_0000);
    assert((b * 0x1_0001) % 0x1_0000 == b && (b * 0x1_0001) / 0x1_0000 == b) by (nonlinear_arith)
        requires
            0 <= b < 0x1_0000,
    ;
    assert(0 <= b * 0x1_0001 < 0x1_0000_0000) by (nonlinear_arith)
        requires
            0 <= b < 0x1_0000,
    ;
}

} // verus!
