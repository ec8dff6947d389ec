use drone_flight_controller::button::{ButtonAction, ResetButton};

#[test]
fn new_button_is_not_pressed() {
    let b = ResetButton::new();
    assert!(!b.is_pressed());
    assert_eq!(b.get_button_state(false), ButtonAction::NoAction);
    assert_eq!(b.get_button_state(true), ButtonAction::Pressed);
}

#[test]
fn press_runs_callback_once() {
    let mut b = ResetButton::new();
    let mut calls = 0;
    let a = b.check_reset_press(true, || calls += 1);
    assert_eq!(a, ButtonAction::Pressed);
    assert!(b.is_pressed());
    let a = b.check_reset_press(true, || calls += 1);
    assert_eq!(a, ButtonAction::NoAction);
    let a = b.check_reset_press(true, || calls += 1);
    assert_eq!(a, ButtonAction::NoAction);
    assert_eq!(calls, 1);
}

#[test]
fn release_then_press_again() {
    let mut b = ResetButton::new();
    let mut calls = 0;
    assert_eq!(b.check_reset_press(false, || calls += 1), ButtonAction::NoAction);
    assert_eq!(b.check_reset_press(true, || calls += 1), ButtonAction::Pressed);
    assert_eq!(b.check_reset_press(false, || calls += 1), ButtonAction::Released);
    assert!(!b.is_pressed());
    assert_eq!(b.check_reset_press(false, || calls += 1), ButtonAction::NoAction);
    assert_eq!(b.check_reset_press(true, || calls += 1), ButtonAction::Pressed);
    assert_eq!(calls, 2);
}

#[test]
fn presses_counted_at_rising_edges() {
    let levels = [false, true, true, false, true, false, false, true, true, true, false];
    let mut b = ResetButton::new();
    let mut presses = 0;
    let mut releases = 0;
    let mut prev = false;
    for &high in levels.iter() {
        let a = b.check_reset_press(high, || {});
        assert_eq!(a == ButtonAction::Pressed, high && !prev);
        assert_eq!(a == ButtonAction::Released, !high && prev);
        assert_eq!(b.is_pressed(), high);
        if a == ButtonAction::Pressed {
            presses += 1;
        }
        if a == ButtonAction::Released {
            releases += 1;
        }
        prev = high;
    }
    assert_eq!(presses, 3);
    assert_eq!(releases, 3);
}
