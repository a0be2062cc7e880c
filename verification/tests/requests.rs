//! The destination queue and the panel decision rule.

use elevator_rig::common::Elevator;
use elevator_rig::common::Floor;
use elevator_rig::panel::Button;
use elevator_rig::panel::emergency_indicator;
use elevator_rig::panel::register_base;
use elevator_rig::panel::scan_panel;
use elevator_rig::queue::FloorQueue;

#[test]
fn hall_call_deduplication() {
    let mut queue = FloorQueue::new();
    queue.enqueue(Floor::First);
    queue.enqueue(Floor::First);
    queue.enqueue(Floor::First);
    assert_eq!(queue.len(), 1);
    assert_eq!(queue.pop(), Some(Floor::First));
    assert!(queue.is_empty());
    assert_eq!(queue.pop(), None);
}

#[test]
fn queue_keeps_first_insertion_order() {
    let mut queue = FloorQueue::new();
    for floor in [Floor::Second, Floor::First, Floor::Second, Floor::Ground, Floor::First] {
        queue.enqueue(floor);
    }
    assert_eq!(queue.len(), 3);
    assert_eq!(queue.pop(), Some(Floor::Second));
    assert_eq!(queue.pop(), Some(Floor::First));
    assert_eq!(queue.pop(), Some(Floor::Ground));
    assert_eq!(queue.pop(), None);
}

#[test]
fn scan_enqueues_asserted_registers_in_order() {
    let mut queue = FloorQueue::new();
    // Hall call down at Second (offset 4), car call at Ground
    // (offset 7), car call at Second (offset 9).
    let mut registers = vec![false; 11];
    registers[4] = true;
    registers[7] = true;
    registers[9] = true;
    let emergency = scan_panel(&mut queue, &registers);
    assert!(!emergency);
    assert_eq!(queue.len(), 2);
    assert_eq!(queue.pop(), Some(Floor::Second));
    assert_eq!(queue.pop(), Some(Floor::Ground));
}

#[test]
fn scan_emergency_drains_queue() {
    let mut queue = FloorQueue::new();
    queue.enqueue(Floor::Third);
    queue.enqueue(Floor::First);
    let mut registers = vec![false; 11];
    registers[2] = true;
    registers[6] = true;
    let emergency = scan_panel(&mut queue, &registers);
    assert!(emergency);
    assert!(queue.is_empty());
}

#[test]
fn emergency_indicator_asserts_only_the_latch() {
    let state = emergency_indicator();
    assert_eq!(state.len(), 11);
    for (i, asserted) in state.iter().enumerate() {
        assert_eq!(*asserted, i == 6);
    }
}

#[test]
fn button_codes_round_trip() {
    for code in 0x00u8..=0x0A {
        let button = Button::from_code(code);
        assert_eq!(button.code(), code);
    }
    for code in 0xA0u8..=0xAA {
        let button = Button::from_code(code);
        assert_eq!(button.code(), code);
    }
    assert_eq!(Button::try_from_code(0x0B), None);
    assert_eq!(Button::try_from_code(0x9F), None);
    assert_eq!(Button::try_from_code(0xAB), None);
}

#[test]
fn buttons_name_their_floors() {
    assert_eq!(Button::GroundFloorUp1.into_floor(Elevator::One), Some(Floor::Ground));
    assert_eq!(Button::SecondFloorDown1.into_floor(Elevator::One), Some(Floor::Second));
    assert_eq!(Button::ThirdFloorCall2.into_floor(Elevator::Two), Some(Floor::Third));
    assert_eq!(Button::Emergency1.into_floor(Elevator::One), None);
    assert_eq!(Button::Emergency2.into_floor(Elevator::Two), None);
    // A button of the other cabin requests nothing.
    assert_eq!(Button::FirstFloorCall1.into_floor(Elevator::Two), None);
}

#[test]
fn register_bases() {
    assert_eq!(register_base(Elevator::One), 0x00);
    assert_eq!(register_base(Elevator::Two), 0xA0);
}
