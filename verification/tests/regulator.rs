//! The PID regulator, at its documented operating points.
//!
//! The regulator yields potency in hundred-thousandths of full
//! scale, so full drive reads as 1.0 after dividing by 100000.

use elevator_rig::common::Direction;
use elevator_rig::pid::FULL_POTENCY;
use elevator_rig::pid::PidController;
use elevator_rig::pid::potency_percent;

fn as_duty(potency: u32) -> f64 {
    potency as f64 / FULL_POTENCY as f64
}

#[test]
fn pid() {
    let mut pid = PidController::new();

    let (potency_1, direction_1) = pid.get_control_signal(0, 25000);
    let (potency_2, direction_2) = pid.get_control_signal(25000, 0);

    assert_eq!(as_duty(potency_1), 1.0);
    assert_eq!(direction_1, Direction::Up);

    assert_eq!(as_duty(potency_2), 1.0);
    assert_eq!(direction_2, Direction::Down);
}

#[test]
fn saturates_from_twenty_thousand_counts() {
    for error in [20000i32, 25000, 100000, 2000000] {
        let mut pid = PidController::new();
        let (potency, direction) = pid.get_control_signal(0, error);
        assert_eq!(potency, FULL_POTENCY);
        assert_eq!(direction, Direction::Up);

        let mut pid = PidController::new();
        let (potency, direction) = pid.get_control_signal(error, 0);
        assert_eq!(potency, FULL_POTENCY);
        assert_eq!(direction, Direction::Down);
    }
}

#[test]
fn small_error_yields_proportional_output() {
    let mut pid = PidController::new();
    // First tick: error 1000, delta 1000, so 0.005·1000 + 0.01·1000
    // = 15 units of signal, potency 0.15.
    let (potency, direction) = pid.get_control_signal(0, 1000);
    assert_eq!(potency, 15000);
    assert_eq!(direction, Direction::Up);
    assert_eq!(as_duty(potency), 0.15);

    // Second tick from the same readings: delta is now zero, so only
    // the proportional term remains: 5 units, potency 0.05.
    let (potency, direction) = pid.get_control_signal(0, 1000);
    assert_eq!(potency, 5000);
    assert_eq!(direction, Direction::Up);
    assert_eq!(as_duty(potency), 0.05);
}

#[test]
fn zero_error_is_a_stop_at_up() {
    let mut pid = PidController::new();
    let (potency, direction) = pid.get_control_signal(12000, 12000);
    assert_eq!(potency, 0);
    assert_eq!(direction, Direction::Up);
}

#[test]
fn echoed_percentage_truncates() {
    assert_eq!(potency_percent(100000), 100);
    assert_eq!(potency_percent(15000), 15);
    assert_eq!(potency_percent(14999), 14);
    assert_eq!(potency_percent(0), 0);
}
