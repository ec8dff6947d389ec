use drone_flight_controller::motor::{
    stick_command, LedCommand, Motor1WithLed1, MotorOutput, StickCommand, STICK_HIGH, STICK_LOW,
};

#[test]
fn new_motor_starts_at_one_ms_pulse() {
    // TIM3 is set up with a resolution of 65535 at 50 Hz.
    let m = Motor1WithLed1::new(65535);
    assert_eq!(m.get_duty(), 3276);
    assert_eq!(m.min_duty(), 3276);
    assert_eq!(m.max_duty(), 6553);
    assert!(!m.led_on());
}

#[test]
fn new_motor_small_resolution() {
    let m = Motor1WithLed1::new(19);
    assert_eq!(m.min_duty(), 0);
    assert_eq!(m.max_duty(), 1);
    assert_eq!(m.get_duty(), 0);
}

#[test]
fn increment_lights_led_once() {
    let mut m = Motor1WithLed1::new(65535);
    let out = m.increment_and_set(1);
    assert_eq!(out, MotorOutput { duty: 3277, led: LedCommand::On });
    assert!(m.led_on());
    let out = m.increment_and_set(10);
    assert_eq!(out, MotorOutput { duty: 3287, led: LedCommand::Keep });
    assert_eq!(m.get_duty(), 3287);
}

#[test]
fn increment_saturates_at_two_ms_pulse() {
    let mut m = Motor1WithLed1::new(65535);
    let out = m.increment_and_set(60000);
    assert_eq!(out.duty, 6553);
    assert_eq!(m.get_duty(), 6553);
    let out = m.increment_and_set(1);
    assert_eq!(out.duty, 6553);
}

#[test]
fn increment_by_zero_lights_led_at_min() {
    let mut m = Motor1WithLed1::new(65535);
    let out = m.increment_and_set(0);
    assert_eq!(out, MotorOutput { duty: 3276, led: LedCommand::On });
    assert!(m.led_on());
}

#[test]
fn decrement_darkens_led_at_min() {
    let mut m = Motor1WithLed1::new(65535);
    m.increment_and_set(5);
    let out = m.decrement_and_set(3);
    assert_eq!(out, MotorOutput { duty: 3278, led: LedCommand::Keep });
    assert!(m.led_on());
    let out = m.decrement_and_set(100);
    assert_eq!(out, MotorOutput { duty: 3276, led: LedCommand::Off });
    assert!(!m.led_on());
    let out = m.decrement_and_set(1);
    assert_eq!(out, MotorOutput { duty: 3276, led: LedCommand::Keep });
}

#[test]
fn decrement_to_exact_min_darkens_led() {
    let mut m = Motor1WithLed1::new(65535);
    m.increment_and_set(4);
    let out = m.decrement_and_set(4);
    assert_eq!(out, MotorOutput { duty: 3276, led: LedCommand::Off });
}

#[test]
fn set_min_stops_motor() {
    let mut m = Motor1WithLed1::new(65535);
    m.increment_and_set(1000);
    let out = m.set_min();
    assert_eq!(out, MotorOutput { duty: 3276, led: LedCommand::Off });
    assert_eq!(m.get_duty(), 3276);
    assert!(!m.led_on());
    // stopping twice is stopping once
    let out = m.set_min();
    assert_eq!(out, MotorOutput { duty: 3276, led: LedCommand::Off });
}

#[test]
fn increment_then_decrement_restores_duty() {
    let mut m = Motor1WithLed1::new(65535);
    m.increment_and_set(100);
    let before = m.get_duty();
    m.increment_and_set(250);
    m.decrement_and_set(250);
    assert_eq!(m.get_duty(), before);
    m.decrement_and_set(40);
    m.increment_and_set(40);
    assert_eq!(m.get_duty(), before);
}

#[test]
fn duty_stays_within_pulse_bounds() {
    let mut m = Motor1WithLed1::new(65535);
    for i in 0..200u16 {
        if i % 3 == 0 {
            let d = m.get_duty();
            m.decrement_and_set(if d >= 97 { 97 } else { d });
        } else {
            m.increment_and_set(55);
        }
        assert!(m.get_duty() >= m.min_duty() && m.get_duty() <= m.max_duty());
        assert!(m.led_on() || m.get_duty() == m.min_duty());
    }
}

#[test]
fn stick_thresholds() {
    assert_eq!(stick_command(4095), StickCommand::Increase);
    assert_eq!(stick_command(STICK_HIGH + 1), StickCommand::Increase);
    assert_eq!(stick_command(STICK_HIGH), StickCommand::Hold);
    assert_eq!(stick_command(2048), StickCommand::Hold);
    assert_eq!(stick_command(STICK_LOW), StickCommand::Hold);
    assert_eq!(stick_command(STICK_LOW - 1), StickCommand::Decrease);
    assert_eq!(stick_command(0), StickCommand::Decrease);
}

#[test]
fn apply_stick_moves_duty_by_one() {
    let mut m = Motor1WithLed1::new(65535);
    assert_eq!(m.apply_stick(2048), None);
    assert_eq!(m.apply_stick(4000), Some(MotorOutput { duty: 3277, led: LedCommand::On }));
    assert_eq!(m.apply_stick(4000), Some(MotorOutput { duty: 3278, led: LedCommand::Keep }));
    assert_eq!(m.apply_stick(100), Some(MotorOutput { duty: 3277, led: LedCommand::Keep }));
    assert_eq!(m.apply_stick(100), Some(MotorOutput { duty: 3276, led: LedCommand::Off }));
    assert_eq!(m.apply_stick(100), Some(MotorOutput { duty: 3276, led: LedCommand::Keep }));
    assert_eq!(m.get_duty(), 3276);
}
