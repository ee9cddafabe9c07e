use cdfr_robot::motor::{DirPins, Direction};
use cdfr_robot::servo::duty_bounds;

#[test]
fn toggle_reverses_turning_motor() {
    assert_eq!(Direction::Forward.toggled(), Some(Direction::Backward));
    assert_eq!(Direction::Backward.toggled(), Some(Direction::Forward));
    assert_eq!(Direction::Stopped.toggled(), None);
    assert_eq!(
        Direction::Forward.toggled().unwrap().toggled(),
        Some(Direction::Forward)
    );
}

#[test]
fn direction_pins() {
    assert_eq!(
        Direction::Forward.pins(),
        DirPins { pin_a_high: true, stop_pwm: false, reapply_speed: true }
    );
    assert_eq!(
        Direction::Backward.pins(),
        DirPins { pin_a_high: false, stop_pwm: false, reapply_speed: true }
    );
    assert_eq!(
        Direction::Stopped.pins(),
        DirPins { pin_a_high: false, stop_pwm: true, reapply_speed: false }
    );
}

#[test]
fn forward_duty_is_inverted() {
    assert_eq!(Direction::Forward.pwm_duty(8191, 2000), 6191);
    assert_eq!(Direction::Backward.pwm_duty(8191, 2000), 2000);
    assert_eq!(Direction::Forward.pwm_duty(8191, 0), 8191);
    assert_eq!(Direction::Forward.pwm_duty(8191, 8191), 0);
    // only the forward duty is inverted, so only it is bounded by the maximum
    assert_eq!(Direction::Backward.pwm_duty(100, 150), 150);
}

#[test]
fn servo_duty_bounds() {
    // 13-bit PWM: 2.5 % is 204, 12.5 % is 1023
    assert_eq!(duty_bounds(8191), (204, 819));
    assert_eq!(duty_bounds(1000), (25, 100));
    assert_eq!(duty_bounds(0), (0, 0));
}
