use bath_monitor::status_poll::{parse_led_state, reconcile};

#[test]
fn parses_one_char_per_person() {
    assert_eq!(parse_led_state(b"10100"), Some([true, false, true, false, false]));
    assert_eq!(parse_led_state(b"11111\n"), Some([true; 5]));
    assert_eq!(parse_led_state(b"00000"), Some([false; 5]));
}

#[test]
fn short_body_is_rejected() {
    assert_eq!(parse_led_state(b"1010"), None);
    assert_eq!(parse_led_state(b""), None);
}

#[test]
fn anything_but_one_is_not_pressed() {
    assert_eq!(parse_led_state(b"1x2 1"), Some([true, false, false, false, true]));
}

#[test]
fn owed_actions_win_over_server_answer() {
    let fetched = [false, true, false, true, false];
    let before = [Some(true), None, Some(true), None, None];
    let after = [None, Some(false), Some(false), None, None];
    assert_eq!(reconcile(fetched, before, after), [true, false, false, true, false]);
}

#[test]
fn nothing_owed_takes_server_answer() {
    let fetched = [true, false, true, false, true];
    assert_eq!(reconcile(fetched, [None; 5], [None; 5]), fetched);
}
