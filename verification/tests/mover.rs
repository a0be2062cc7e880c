//! The move-to-floor worker's decisions, tick by tick.

use elevator_rig::common::Direction;
use elevator_rig::common::Floor;
use elevator_rig::floors::FloorsPosition;
use elevator_rig::motion::MIN_MOVE_POTENCY;
use elevator_rig::motion::begin_move;
use elevator_rig::motion::keep_moving;
use elevator_rig::motion::move_tick;
use elevator_rig::motion::worker_poll;
use elevator_rig::panel::Button;
use elevator_rig::pid::FULL_POTENCY;
use elevator_rig::pid::PidController;
use elevator_rig::queue::FloorQueue;

fn rig_positions() -> FloorsPosition {
    FloorsPosition { ground: 0, first: 8000, second: 16000, third: 25600 }
}

#[test]
fn normal_move_to_second() {
    let positions = rig_positions();
    let mut queue = FloorQueue::new();
    queue.enqueue(Floor::Second);

    // The worker pops the destination: no emergency is latched.
    let destination = worker_poll(&mut queue, false);
    assert_eq!(destination, Some(Floor::Second));
    assert!(queue.is_empty());

    // From the ground the move goes up.
    assert_eq!(begin_move(Floor::Ground, Floor::Second), Some(Direction::Up));

    // Drive while the sensor is dark; the command never falls below
    // the stiction floor.
    let mut pid = PidController::new();
    let mut position = 0i32;
    let mut ticks = 0;
    while keep_moving(position >= 15900, false) {
        let command = move_tick(&mut pid, &positions, Floor::Second, position);
        assert_eq!(command.direction, Direction::Up);
        assert!(command.potency >= MIN_MOVE_POTENCY);
        assert!(command.potency <= FULL_POTENCY);
        assert_eq!(command.floor, positions.derive_floor(position));
        // A crude plant: the cabin advances with the commanded duty.
        position += (command.potency / 1000) as i32;
        ticks += 1;
        assert!(ticks < 2000, "cabin never reached the sensor");
    }
    assert!(position >= 15900);

    // On arrival the worker deasserts the hall calls serving the
    // floor and its car call.
    let buttons = Button::get_buttons(elevator_rig::common::Elevator::One, Floor::Second);
    let codes: Vec<u8> = buttons.iter().map(|b| b.code()).collect();
    assert_eq!(codes, vec![0x03, 0x04, 0x09]);
}

#[test]
fn popped_floor_equal_to_current_skips_motion() {
    assert_eq!(begin_move(Floor::First, Floor::First), None);
    assert_eq!(begin_move(Floor::Third, Floor::Ground), Some(Direction::Down));
}

#[test]
fn emergency_stops_within_one_tick() {
    let positions = rig_positions();
    let mut pid = PidController::new();

    // Mid-move, the drive guard holds while the emergency is clear…
    assert!(keep_moving(false, false));
    let command = move_tick(&mut pid, &positions, Floor::Second, 4000);
    assert_eq!(command.direction, Direction::Up);

    // …and fails the moment the latch is observed, whatever the
    // sensor shows: the engine is commanded Stop at zero potency.
    assert!(!keep_moving(false, true));
    assert!(!keep_moving(true, true));

    // A latched emergency also blocks any further pop.
    let mut queue = FloorQueue::new();
    queue.enqueue(Floor::Third);
    assert_eq!(worker_poll(&mut queue, true), None);
    assert_eq!(queue.len(), 1);
}

#[test]
fn empty_queue_idles() {
    let mut queue = FloorQueue::new();
    assert_eq!(worker_poll(&mut queue, false), None);
}
