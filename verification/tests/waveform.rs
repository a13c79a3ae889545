use bath_monitor::waveform::{mix, EnvelopeChange, NoteOn, Phase, Slot, PITCH_STEP_Q16, WAVETABLE};

#[test]
fn tables_have_their_anchor_values() {
    assert_eq!(PITCH_STEP_Q16[69], 65536);
    assert_eq!(PITCH_STEP_Q16[57], 32768);
    assert_eq!(PITCH_STEP_Q16[0], 1218);
    assert_eq!(PITCH_STEP_Q16[127], 1868350);
    assert_eq!(WAVETABLE[25], 16383);
    assert_eq!(WAVETABLE[75], -16383);
    for i in 0..50 {
        assert_eq!(WAVETABLE[i + 50], -WAVETABLE[i]);
    }
}

#[test]
fn idle_slot_attacks_at_once() {
    let mut s = Slot::new();
    assert_eq!(s.phase(), Phase::Idle);
    let change = s.note_on(NoteOn { pitch: 69, volume: 100, duration: 1 });
    assert_eq!(change, EnvelopeChange::Attack { volume: 100 });
    assert_eq!(s.phase(), Phase::Attack);
}

#[test]
fn a4_reads_one_table_sample_per_output_sample() {
    let mut s = Slot::new();
    s.note_on(NoteOn { pitch: 69, volume: 127, duration: 10 });
    for i in 0..300usize {
        let (_, sample) = s.tick(false);
        assert_eq!(sample, WAVETABLE[i % 100]);
    }
}

#[test]
fn octave_up_skips_every_other_sample() {
    let mut s = Slot::new();
    s.note_on(NoteOn { pitch: 81, volume: 127, duration: 10 });
    for i in 0..100usize {
        let (_, sample) = s.tick(false);
        assert_eq!(sample, WAVETABLE[(2 * i) % 100]);
    }
}

#[test]
fn attack_lasts_duration_times_440_samples() {
    let mut s = Slot::new();
    s.note_on(NoteOn { pitch: 60, volume: 100, duration: 2 });
    for _ in 0..879 {
        assert_eq!(s.tick(false).0, EnvelopeChange::Keep);
        assert_eq!(s.phase(), Phase::Attack);
    }
    assert_eq!(s.tick(false).0, EnvelopeChange::Release);
    assert_eq!(s.phase(), Phase::Release);
    assert_eq!(s.tick(false).0, EnvelopeChange::Keep);
    assert_eq!(s.tick(true).0, EnvelopeChange::Silence);
    assert_eq!(s.phase(), Phase::Idle);
}

#[test]
fn interrupting_note_damps_then_plays_latest() {
    let mut s = Slot::new();
    s.note_on(NoteOn { pitch: 60, volume: 100, duration: 20 });
    s.tick(false);
    let change = s.note_on(NoteOn { pitch: 64, volume: 90, duration: 20 });
    assert_eq!(change, EnvelopeChange::Damp);
    assert_eq!(s.phase(), Phase::Damp);
    assert_eq!(s.note_on(NoteOn { pitch: 67, volume: 80, duration: 20 }), EnvelopeChange::Keep);
    assert_eq!(s.tick(false).0, EnvelopeChange::Keep);
    assert_eq!(s.phase(), Phase::Damp);
    let (change, sample) = s.tick(true);
    assert_eq!(change, EnvelopeChange::SilenceThenAttack { volume: 80 });
    assert_eq!(s.phase(), Phase::Attack);
    // The new note starts from the beginning of the table.
    assert_eq!(sample, WAVETABLE[0]);
}

#[test]
fn zero_duration_releases_on_first_sample() {
    let mut s = Slot::new();
    s.note_on(NoteOn { pitch: 69, volume: 100, duration: 0 });
    assert_eq!(s.tick(false).0, EnvelopeChange::Release);
}

#[test]
fn pitch_uses_low_seven_bits() {
    let mut a = Slot::new();
    let mut b = Slot::new();
    a.note_on(NoteOn { pitch: 69 + 128, volume: 100, duration: 5 });
    b.note_on(NoteOn { pitch: 69, volume: 100, duration: 5 });
    for _ in 0..50 {
        assert_eq!(a.tick(false), b.tick(false));
    }
}

#[test]
fn mix_saturates_and_fills_both_channels() {
    assert_eq!(mix(16383, 16383), 2147385342);
    assert_eq!(mix(30000, 10000), 32767 * 65537);
    assert_eq!(mix(-20000, -20000), 32768 * 65537);
    assert_eq!(mix(-1, 0), 0xffff_ffff);
    assert_eq!(mix(0, 0), 0);
    let w = mix(1234, -34);
    assert_eq!(w & 0xffff, w >> 16);
    assert_eq!(w & 0xffff, 1200);
}
