//! The shaft model: floor derivation, the calibration file layout
//! and the calibration run.

use elevator_rig::calibration::CalibrationRun;
use elevator_rig::calibration::floor_midpoint;
use elevator_rig::common::Direction;
use elevator_rig::common::Floor;
use elevator_rig::floors::FloorsPosition;
use elevator_rig::pid::FULL_POTENCY;

#[test]
fn cold_start_with_calibration_present() {
    let bytes: [u8; 16] = [
        0x00, 0x00, 0x00, 0x00, 0x40, 0x1F, 0x00, 0x00, 0x80, 0x3E, 0x00, 0x00, 0x00, 0x64, 0x00,
        0x00,
    ];
    let positions = FloorsPosition::from_bytes(&bytes).unwrap();
    assert_eq!(positions.ground, 0);
    assert_eq!(positions.first, 8000);
    assert_eq!(positions.second, 16000);
    assert_eq!(positions.third, 25600);
    assert_eq!(positions.derive_floor(0), Floor::Ground);
}

#[test]
fn calibration_file_round_trip() {
    let cases = vec![
        FloorsPosition { ground: 0, first: 8000, second: 16000, third: 25600 },
        FloorsPosition { ground: -250, first: 1, second: 2, third: i32::MAX },
        FloorsPosition { ground: i32::MIN, first: -1, second: 0, third: 77 },
    ];
    for fp in cases {
        let bytes = fp.to_bytes();
        assert_eq!(bytes.len(), 16);
        let back = FloorsPosition::from_bytes(&bytes).unwrap();
        assert_eq!(back, fp);
    }
}

#[test]
fn truncated_calibration_file_is_malformed() {
    assert!(FloorsPosition::from_bytes(&[]).is_none());
    assert!(FloorsPosition::from_bytes(&[0; 15]).is_none());
    assert!(FloorsPosition::from_bytes(&[0; 17]).is_none());
}

#[test]
fn derived_floor_never_falls_as_the_cabin_rises() {
    let fp = FloorsPosition { ground: 0, first: 8000, second: 16000, third: 25600 };
    let mut last = 0u8;
    for pos in (-500..26500).step_by(50) {
        let now = fp.derive_floor(pos).number();
        assert!(now >= last);
        last = now;
    }
}

#[test]
fn derivation_thresholds_sit_one_hysteresis_band_below() {
    let fp = FloorsPosition { ground: 0, first: 8000, second: 16000, third: 25600 };
    assert_eq!(fp.derive_floor(7899), Floor::Ground);
    assert_eq!(fp.derive_floor(7900), Floor::First);
    assert_eq!(fp.derive_floor(15899), Floor::First);
    assert_eq!(fp.derive_floor(15900), Floor::Second);
    assert_eq!(fp.derive_floor(25499), Floor::Second);
    assert_eq!(fp.derive_floor(25500), Floor::Third);
}

#[test]
fn midpoint_truncates_towards_zero() {
    assert_eq!(floor_midpoint(7900, 8100), 8000);
    assert_eq!(floor_midpoint(1, 2), 1);
    assert_eq!(floor_midpoint(-5, -4), -4);
    assert_eq!(floor_midpoint(-3, 2), 0);
    assert_eq!(floor_midpoint(i32::MIN, i32::MIN), i32::MIN);
    assert_eq!(floor_midpoint(i32::MAX, i32::MAX), i32::MAX);
}

#[test]
fn calibration_run_learns_ordered_midpoints() {
    let mut run = CalibrationRun::new();
    assert_eq!(run.command(), (Direction::Down, FULL_POTENCY));

    // Descend until the encoder reaches its origin.
    assert!(!run.descent_tick(500));
    assert!(!run.descent_tick(120));
    assert!(run.descent_tick(-3));

    // Rise through the four sensor windows.
    let windows = [(-60, 60), (7900, 8100), (15900, 16100), (25500, 25700)];
    for (rise, fall) in windows {
        assert!(!run.finished());
        assert_eq!(run.command(), (Direction::Up, 10000));
        run.record_rise(rise);
        assert_eq!(run.command(), (Direction::Up, 10000));
        run.record_fall(fall);
    }

    assert!(run.finished());
    assert_eq!(run.command(), (Direction::Stop, 0));
    let fp = run.positions();
    assert_eq!(fp.ground, 0);
    assert_eq!(fp.first, 8000);
    assert_eq!(fp.second, 16000);
    assert_eq!(fp.third, 25600);
    assert!(fp.ground < fp.first && fp.first < fp.second && fp.second < fp.third);
}
