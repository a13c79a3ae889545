use bath_monitor::events::LedEvent;
use bath_monitor::led_pattern::{next_frame_due, render, Color, LedState};

fn white(l: u8) -> Color {
    Color { r: l, g: l, b: l }
}

const OFF: Color = Color { r: 0, g: 0, b: 0 };

#[test]
fn unoccupied_and_unpressed_is_dark() {
    let s = LedState::new();
    assert_eq!(s.frame(12345), [OFF; 5]);
}

#[test]
fn pressed_colors_are_steady() {
    let pressed = [true; 5];
    let expected = [
        Color { r: 0, g: 0, b: 48 },
        Color { r: 40, g: 0, b: 20 },
        Color { r: 0, g: 40, b: 0 },
        Color { r: 48, g: 16, b: 0 },
        Color { r: 40, g: 28, b: 0 },
    ];
    assert_eq!(render(&pressed, false, 0), expected);
    assert_eq!(render(&pressed, true, 4321), expected);
}

#[test]
fn breath_exact_levels_and_phase_steps() {
    let pressed = [true, false, false, false, false];
    // LED i samples the breath at now + 6000 - 600 * i.
    assert_eq!(
        render(&pressed, true, 0),
        [Color { r: 0, g: 0, b: 48 }, white(1), white(6), white(14), white(25)]
    );
}

#[test]
fn breath_peaks_at_half_period_and_is_periodic() {
    let pressed = [false; 5];
    assert_eq!(render(&pressed, true, 3000)[0], white(40));
    assert_eq!(render(&pressed, true, 0)[0], white(0));
    assert_eq!(render(&pressed, true, 1234), render(&pressed, true, 1234 + 6000));
}

#[test]
fn breath_travels_along_chain() {
    let pressed = [false; 5];
    for now in [0u64, 700, 2500, 5999] {
        let a = render(&pressed, true, now);
        let b = render(&pressed, true, now + 600);
        for i in 0..4 {
            assert_eq!(b[i + 1], a[i]);
        }
    }
}

#[test]
fn last_write_wins_and_shows_in_next_frame() {
    let mut s = LedState::new();
    s.set_occupied(true);
    s.set_pressed(2, true);
    assert_eq!(s.frame(0)[2], Color { r: 0, g: 40, b: 0 });
    s.set_pressed(2, false);
    assert_eq!(s.frame(0)[2], white(6));
    s.set_all_pressed([false, false, false, true, false]);
    assert_eq!(s.frame(0)[3], Color { r: 48, g: 16, b: 0 });
    s.set_occupied(false);
    assert_eq!(s.frame(0)[2], OFF);
}

#[test]
fn events_update_pressed_flags() {
    let mut s = LedState::new();
    s.apply(LedEvent::Pressed { person_idx: 1 });
    assert_eq!(s.pressed, [false, true, false, false, false]);
    s.apply(LedEvent::Cancelled { person_idx: 1 });
    assert_eq!(s.pressed, [false; 5]);
    s.apply(LedEvent::Sync { pressed: [true, false, true, false, false] });
    assert_eq!(s.pressed, [true, false, true, false, false]);
    assert!(!s.occupied);
}

#[test]
fn frame_cadence_is_fixed_but_never_in_the_past() {
    assert_eq!(next_frame_due(1000, 1050), 1100);
    assert_eq!(next_frame_due(1000, 1100), 1100);
    assert_eq!(next_frame_due(1000, 1350), 1350);
}

#[test]
fn pressed_colors_never_look_like_breathing() {
    let pressed = render(&[true; 5], false, 0);
    for c in pressed.iter() {
        assert!(!(c.r == c.g && c.g == c.b));
    }
}

#[test]
fn breath_falls_as_it_rose() {
    let unpressed = [false; 5];
    assert_eq!(render(&unpressed, true, 1000)[0], white(4));
    assert_eq!(render(&unpressed, true, 5000)[0], white(4));
    assert_eq!(render(&unpressed, true, 2000)[0], white(17));
    assert_eq!(render(&unpressed, true, 4000)[0], white(17));
}

#[test]
fn breath_never_dims_over_first_half() {
    let unpressed = [false; 5];
    let mut previous = 0u8;
    for t in (0..=3000u64).step_by(50) {
        let level = render(&unpressed, true, t)[0].r;
        assert!(level >= previous);
        previous = level;
    }
    assert_eq!(previous, 40);
}

#[test]
fn frames_without_breath_take_any_clock_value() {
    let expected = [
        Color { r: 0, g: 0, b: 48 },
        Color { r: 40, g: 0, b: 20 },
        Color { r: 0, g: 40, b: 0 },
        Color { r: 48, g: 16, b: 0 },
        Color { r: 40, g: 28, b: 0 },
    ];
    assert_eq!(render(&[true; 5], true, u64::MAX), expected);
    assert_eq!(render(&[false; 5], false, u64::MAX), [OFF; 5]);
    assert_eq!(render(&[true, false, true, false, true], false, u64::MAX)[1], OFF);
}
