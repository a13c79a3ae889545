use bath_monitor::music::{music_data, note, NoteEvent, Player, CANCEL_MELODY, IDLE_WAIT_MS};
use bath_monitor::waveform::NoteOn;

#[test]
fn note_builds_event() {
    assert_eq!(note(5, 60, 100, 20), NoteEvent { time: 5, pitch: 60, volume: 100, duration: 20 });
}

#[test]
fn melodies_are_distinct_and_ordered() {
    for a in 0..=CANCEL_MELODY {
        let m = music_data(a);
        assert_eq!(m[0].time, 0);
        for w in m.windows(2) {
            assert!(w[0].time < w[1].time);
        }
        for b in 0..=CANCEL_MELODY {
            if a != b {
                assert_ne!(music_data(a), music_data(b));
            }
        }
    }
    assert_eq!(music_data(CANCEL_MELODY), vec![note(0, 55, 100, 15), note(20, 48, 100, 40)]);
}

#[test]
fn nothing_selected_waits_an_hour() {
    let mut p = Player::new(0);
    assert_eq!(p.wait_ms(0), IDLE_WAIT_MS);
    assert_eq!(p.on_timeout(), None);
}

#[test]
fn melody_plays_at_its_times_alternating_slots() {
    let mut p = Player::new(0);
    p.select(0, 1000);
    assert_eq!(p.wait_ms(1000), 0);
    assert_eq!(p.on_timeout(), Some((0, NoteOn { pitch: 60, volume: 100, duration: 20 })));
    assert_eq!(p.wait_ms(1100), 150);
    assert_eq!(p.on_timeout(), Some((1, NoteOn { pitch: 64, volume: 100, duration: 20 })));
    // Late: the note at 1500 is due now.
    assert_eq!(p.wait_ms(2000), 0);
    assert_eq!(p.on_timeout(), Some((0, NoteOn { pitch: 67, volume: 100, duration: 30 })));
    assert_eq!(p.on_timeout(), None);
    assert_eq!(p.wait_ms(2000), IDLE_WAIT_MS);
}

#[test]
fn new_selection_restarts_from_its_first_note() {
    let mut p = Player::new(0);
    p.select(2, 0);
    p.on_timeout();
    p.select(CANCEL_MELODY, 500);
    assert_eq!(p.wait_ms(500), 0);
    assert_eq!(p.on_timeout(), Some((0, NoteOn { pitch: 55, volume: 100, duration: 15 })));
    assert_eq!(p.wait_ms(600), 100);
    assert_eq!(p.on_timeout(), Some((1, NoteOn { pitch: 48, volume: 100, duration: 40 })));
}

#[test]
fn every_wait_is_bounded_by_the_idle_hour() {
    for m in 0..=CANCEL_MELODY {
        let mut p = Player::new(0);
        p.select(m, 1000);
        loop {
            let wait = p.wait_ms(1000);
            match p.on_timeout() {
                Some(_) => assert!(wait <= 600),
                None => {
                    assert_eq!(wait, IDLE_WAIT_MS);
                    break;
                }
            }
        }
    }
}

#[test]
fn selection_plays_every_note_in_order_on_alternating_slots() {
    for m in 0..=CANCEL_MELODY {
        let score = music_data(m);
        let mut p = Player::new(0);
        p.select(m, 500);
        for (k, n) in score.iter().enumerate() {
            assert_eq!(p.wait_ms(500), n.time as u64 * 10);
            let expected = NoteOn { pitch: n.pitch, volume: n.volume, duration: n.duration };
            assert_eq!(p.on_timeout(), Some((k % 2, expected)));
        }
        assert_eq!(p.on_timeout(), None);
    }
}
