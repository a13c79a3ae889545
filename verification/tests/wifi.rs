use bath_monitor::wifi::{fail_pattern_level, Blinker, JoinBackoff, Link, LinkChange, LinkVerdict, LinkWatch};

#[test]
fn link_reports_transitions_once() {
    let mut l = Link::new();
    assert!(!l.is_connected());
    assert_eq!(l.set_connected(false), LinkChange::Unchanged);
    assert_eq!(l.set_connected(true), LinkChange::CameUp);
    assert!(l.is_connected());
    assert_eq!(l.set_connected(true), LinkChange::Unchanged);
    assert_eq!(l.set_connected(false), LinkChange::WentDown);
}

#[test]
fn link_not_up_yet_is_tolerated_during_grace() {
    let mut w = LinkWatch::new(1000);
    assert_eq!(w.observe(false, false, 5000), LinkVerdict { connected: false, lost: false });
    assert_eq!(w.observe(false, false, 11000), LinkVerdict { connected: false, lost: false });
    assert_eq!(w.observe(false, false, 11001), LinkVerdict { connected: false, lost: true });
}

#[test]
fn link_lost_after_having_been_up() {
    let mut w = LinkWatch::new(0);
    assert_eq!(w.observe(true, false, 100), LinkVerdict { connected: false, lost: false });
    assert_eq!(w.observe(true, true, 200), LinkVerdict { connected: true, lost: false });
    assert_eq!(w.observe(false, true, 300), LinkVerdict { connected: false, lost: true });
}

#[test]
fn backoff_doubles_to_thirty_seconds_and_resets() {
    let mut b = JoinBackoff::new();
    let waits: Vec<u64> = (0..8).map(|_| b.failed()).collect();
    assert_eq!(waits, vec![1000, 2000, 4000, 8000, 16000, 30000, 30000, 30000]);
    b.joined();
    assert_eq!(b.failed(), 1000);
}

#[test]
fn blinker_holds_and_toggles() {
    let mut b = Blinker::new();
    assert!(b.on);
    assert!(!b.tick());
    assert!(b.tick());
    b.tick();
    assert!(b.hold_on());
    assert!(b.on);
}

#[test]
fn failed_join_double_flash() {
    let lit: Vec<bool> = [0u64, 50, 99, 100, 199, 200, 299, 300, 1999, 2000, 2250]
        .iter()
        .map(|&t| fail_pattern_level(t))
        .collect();
    assert_eq!(lit, vec![true, true, true, false, false, true, true, false, false, true, true]);
}
