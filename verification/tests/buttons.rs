use bath_monitor::buttons::{button_step, melody_for, ButtonAction, ButtonEvent, ButtonPhase, ButtonWait};
use bath_monitor::debounce::{occupied_from, settled, Level};

#[test]
fn short_press_registers_a_press() {
    let (p, a, w) = button_step(ButtonPhase::Idle, ButtonEvent::Settled(Level::Low));
    assert_eq!((p, a, w), (ButtonPhase::Held, ButtonAction::Nothing, ButtonWait::SettleWithin));
    let (p, a, w) = button_step(p, ButtonEvent::Settled(Level::High));
    assert_eq!((p, a, w), (ButtonPhase::Idle, ButtonAction::Press, ButtonWait::Settle));
    assert_eq!(melody_for(a, 3), Some(3));
}

#[test]
fn release_right_at_deadline_is_a_press() {
    let r = button_step(ButtonPhase::Held, ButtonEvent::LongPressElapsed(Level::High));
    assert_eq!(r, (ButtonPhase::Idle, ButtonAction::Press, ButtonWait::Settle));
}

#[test]
fn long_press_cancels_and_swallows_release() {
    let (p, a, w) = button_step(ButtonPhase::Held, ButtonEvent::LongPressElapsed(Level::Low));
    assert_eq!((p, a, w), (ButtonPhase::Swallowing, ButtonAction::Cancel, ButtonWait::Sample));
    assert_eq!(melody_for(a, 1), Some(5));
    // Still held: wait for the next settled level, then look again.
    let (p, a, w) = button_step(p, ButtonEvent::Sampled(Level::Low));
    assert_eq!((p, a, w), (ButtonPhase::Swallowing, ButtonAction::Nothing, ButtonWait::Settle));
    let (p, a, w) = button_step(p, ButtonEvent::Settled(Level::High));
    assert_eq!((p, a, w), (ButtonPhase::Swallowing, ButtonAction::Nothing, ButtonWait::Sample));
    let (p, a, w) = button_step(p, ButtonEvent::Sampled(Level::High));
    assert_eq!((p, a, w), (ButtonPhase::Idle, ButtonAction::Nothing, ButtonWait::Settle));
}

#[test]
fn settled_release_while_idle_does_nothing() {
    let r = button_step(ButtonPhase::Idle, ButtonEvent::Settled(Level::High));
    assert_eq!(r, (ButtonPhase::Idle, ButtonAction::Nothing, ButtonWait::Settle));
    assert_eq!(melody_for(ButtonAction::Nothing, 0), None);
}

#[test]
fn debounce_keeps_only_lasting_changes() {
    assert_eq!(settled(Level::High, Level::Low), Some(Level::Low));
    assert_eq!(settled(Level::Low, Level::High), Some(Level::High));
    assert_eq!(settled(Level::High, Level::High), None);
}

#[test]
fn dark_sensor_reading_low_means_occupied() {
    assert!(occupied_from(Level::Low));
    assert!(!occupied_from(Level::High));
}
