//! The button panel: the register map of both cabins, the floor
//! each button requests, and the decision rule the panel poller
//! applies to one sweep of a cabin's registers.

use vstd::prelude::*;

use crate::common::Elevator;
use crate::common::Floor;
use crate::queue::FloorQueue;
use crate::queue::spec_enqueue;
use crate::queue::spec_enqueue_all;

verus! {

/// How many button registers each cabin exposes.
pub const REGISTERS_PER_CABIN: usize = 11;

/// Offset of the emergency register within a cabin's registers.
pub const EMERGENCY_OFFSET: usize = 6;

/// One button register of the panel, for either cabin: the hall
/// calls, the emergency button and the in-car calls.
#[derive(Clone, Copy, PartialEq, Eq, Structural, Debug, Hash)]
pub enum Button {
    GroundFloorUp1,
    FirstFloorUp1,
    FirstFloorDown1,
    SecondFloorUp1,
    SecondFloorDown1,
    ThirdFloorDown1,
    Emergency1,
    GroundFloorCall1,
    FirstFloorCall1,
    SecondFloorCall1,
    ThirdFloorCall1,
    GroundFloorUp2,
    FirstFloorUp2,
    FirstFloorDown2,
    SecondFloorUp2,
    SecondFloorDown2,
    ThirdFloorDown2,
    Emergency2,
    GroundFloorCall2,
    FirstFloorCall2,
    SecondFloorCall2,
    ThirdFloorCall2,
}

/// The register addresses that exist on the wire: `0x00..=0x0A` for
/// the first cabin, `0xA0..=0xAA` for the second.
pub open spec fn spec_valid_button_code(value: u8) -> bool {
    value <= 0x0A || (0xA0 <= value <= 0xAA)
}

impl Button {
    /// The register address of this button.
    pub open spec fn spec_code(self) -> u8 {
        match self {
            Button::GroundFloorUp1 => 0x00,
            Button::FirstFloorUp1 => 0x01,
            Button::FirstFloorDown1 => 0x02,
            Button::SecondFloorUp1 => 0x03,
            Button::SecondFloorDown1 => 0x04,
            Button::ThirdFloorDown1 => 0x05,
            Button::Emergency1 => 0x06,
            Button::GroundFloorCall1 => 0x07,
            Button::FirstFloorCall1 => 0x08,
            Button::SecondFloorCall1 => 0x09,
            Button::ThirdFloorCall1 => 0x0A,
            Button::GroundFloorUp2 => 0xA0,
            Button::FirstFloorUp2 => 0xA1,
            Button::FirstFloorDown2 => 0xA2,
            Button::SecondFloorUp2 => 0xA3,
            Button::SecondFloorDown2 => 0xA4,
            Button::ThirdFloorDown2 => 0xA5,
            Button::Emergency2 => 0xA6,
            Button::GroundFloorCall2 => 0xA7,
            Button::FirstFloorCall2 => 0xA8,
            Button::SecondFloorCall2 => 0xA9,
            Button::ThirdFloorCall2 => 0xAA,
        }
    }

    /// Executable twin of [`Self::spec_code`].
    #[verifier::when_used_as_spec(spec_code)]
    pub fn code(self) -> (r: u8)
        ensures
            r == self.spec_code(),
    {
        match self {
            Button::GroundFloorUp1 => 0x00,
            Button::FirstFloorUp1 => 0x01,
            Button::FirstFloorDown1 => 0x02,
            Button::SecondFloorUp1 => 0x03,
            Button::SecondFloorDown1 => 0x04,
            Button::ThirdFloorDown1 => 0x05,
            Button::Emergency1 => 0x06,
            Button::GroundFloorCall1 => 0x07,
            Button::FirstFloorCall1 => 0x08,
            Button::SecondFloorCall1 => 0x09,
            Button::ThirdFloorCall1 => 0x0A,
            Button::GroundFloorUp2 => 0xA0,
            Button::FirstFloorUp2 => 0xA1,
            Button::FirstFloorDown2 => 0xA2,
            Button::SecondFloorUp2 => 0xA3,
            Button::SecondFloorDown2 => 0xA4,
            Button::ThirdFloorDown2 => 0xA5,
            Button::Emergency2 => 0xA6,
            Button::GroundFloorCall2 => 0xA7,
            Button::FirstFloorCall2 => 0xA8,
            Button::SecondFloorCall2 => 0xA9,
            Button::ThirdFloorCall2 => 0xAA,
        }
    }

    /// The button at a register address, if the address names one.
    pub fn try_from_code(value: u8) -> (r: Option<Button>)
        ensures
            r is Some <==> spec_valid_button_code(value),
            r matches Some(b) ==> b.spec_code() == value,
    {
        match value {
            0x00 => Some(Button::GroundFloorUp1),
            0x01 => Some(Button::FirstFloorUp1),
            0x02 => Some(Button::FirstFloorDown1),
            0x03 => Some(Button::SecondFloorUp1),
            0x04 => Some(Button::SecondFloorDown1),
            0x05 => Some(Button::ThirdFloorDown1),
            0x06 => Some(Button::Emergency1),
            0x07 => Some(Button::GroundFloorCall1),
            0x08 => Some(Button::FirstFloorCall1),
            0x09 => Some(Button::SecondFloorCall1),
            0x0A => Some(Button::ThirdFloorCall1),
            0xA0 => Some(Button::GroundFloorUp2),
            0xA1 => Some(Button::FirstFloorUp2),
            0xA2 => Some(Button::FirstFloorDown2),
            0xA3 => Some(Button::SecondFloorUp2),
            0xA4 => Some(Button::SecondFloorDown2),
            0xA5 => Some(Button::ThirdFloorDown2),
            0xA6 => Some(Button::Emergency2),
            0xA7 => Some(Button::GroundFloorCall2),
            0xA8 => Some(Button::FirstFloorCall2),
            0xA9 => Some(Button::SecondFloorCall2),
            0xAA => Some(Button::ThirdFloorCall2),
            _ => None,
        }
    }

    /// The button at a register address that is known to name one.
    /// An address outside the map is a programming error the callers
    /// rule out before the call.
    pub fn from_code(value: u8) -> (r: Button)
        requires
            spec_valid_button_code(value),
        ensures
            r.spec_code() == value,
    {
        match Button::try_from_code(value) {
            Some(button) => button,
            None => Button::GroundFloorUp1,
        }
    }

    /// The cabin whose panel this button sits on.
    pub open spec fn spec_cabin(self) -> Elevator {
        if self.spec_code() <= 0x0A {
            Elevator::One
        } else {
            Elevator::Two
        }
    }

    /// The destination a press of this button requests for `cabin`:
    /// the floor a hall call or car call names, and nothing for the
    /// emergency button or for a button of the other cabin.
    pub open spec fn spec_into_floor(self, cabin: Elevator) -> Option<Floor> {
        if self.spec_cabin() != cabin {
            None
        } else {
            match self {
                Button::GroundFloorUp1 | Button::GroundFloorCall1 => Some(Floor::Ground),
                Button::FirstFloorUp1 | Button::FirstFloorDown1 | Button::FirstFloorCall1 => Some(
                    Floor::First,
                ),
                Button::SecondFloorUp1 | Button::SecondFloorDown1 | Button::SecondFloorCall1
                    => Some(Floor::Second),
                Button::ThirdFloorDown1 | Button::ThirdFloorCall1 => Some(Floor::Third),
                Button::GroundFloorUp2 | Button::GroundFloorCall2 => Some(Floor::Ground),
                Button::FirstFloorUp2 | Button::FirstFloorDown2 | Button::FirstFloorCall2 => Some(
                    Floor::First,
                ),
                Button::SecondFloorUp2 | Button::SecondFloorDown2 | Button::SecondFloorCall2
                    => Some(Floor::Second),
                Button::ThirdFloorDown2 | Button::ThirdFloorCall2 => Some(Floor::Third),
                Button::Emergency1 | Button::Emergency2 => None,
            }
        }
    }

    /// Executable twin of [`Self::spec_into_floor`].
    pub fn into_floor(self, cabin: Elevator) -> (r: Option<Floor>)
        ensures
            r == self.spec_into_floor(cabin),
    {
        let own = if self.code() <= 0x0A {
            Elevator::One
        } else {
            Elevator::Two
        };
        if own != cabin {
            return None;
        }
        match self {
            Button::GroundFloorUp1 | Button::GroundFloorCall1 => Some(Floor::Ground),
            Button::FirstFloorUp1 | Button::FirstFloorDown1 | Button::FirstFloorCall1 => Some(
                Floor::First,
            ),
            Button::SecondFloorUp1 | Button::SecondFloorDown1 | Button::SecondFloorCall1 => Some(
                Floor::Second,
            ),
            Button::ThirdFloorDown1 | Button::ThirdFloorCall1 => Some(Floor::Third),
            Button::GroundFloorUp2 | Button::GroundFloorCall2 => Some(Floor::Ground),
            Button::FirstFloorUp2 | Button::FirstFloorDown2 | Button::FirstFloorCall2 => Some(
                Floor::First,
            ),
            Button::SecondFloorUp2 | Button::SecondFloorDown2 | Button::SecondFloorCall2 => Some(
                Floor::Second,
            ),
            Button::ThirdFloorDown2 | Button::ThirdFloorCall2 => Some(Floor::Third),
            Button::Emergency1 | Button::Emergency2 => None,
        }
    }

    /// The buttons deasserted together when `cabin` arrives at
    /// `floor`: the hall calls serving the floor and its in-car
    /// call.
    pub open spec fn spec_get_buttons(cabin: Elevator, floor: Floor) -> Seq<Button> {
        match cabin {
            Elevator::One => match floor {
                Floor::Ground => seq![Button::GroundFloorUp1, Button::GroundFloorCall1],
                Floor::First => seq![
                    Button::FirstFloorUp1,
                    Button::FirstFloorDown1,
                    Button::FirstFloorCall1,
                ],
                Floor::Second => seq![
                    Button::SecondFloorUp1,
                    Button::SecondFloorDown1,
                    Button::SecondFloorCall1,
                ],
                Floor::Third => seq![Button::ThirdFloorDown1, Button::ThirdFloorCall1],
            },
            Elevator::Two => match floor {
                Floor::Ground => seq![Button::GroundFloorUp2, Button::GroundFloorCall2],
                Floor::First => seq![
                    Button::FirstFloorUp2,
                    Button::FirstFloorDown2,
                    Button::FirstFloorCall2,
                ],
                Floor::Second => seq![
                    Button::SecondFloorUp2,
                    Button::SecondFloorDown2,
                    Button::SecondFloorCall2,
                ],
                Floor::Third => seq![Button::ThirdFloorDown2, Button::ThirdFloorCall2],
            },
        }
    }

    /// Executable twin of [`Self::spec_get_buttons`].
    pub fn get_buttons(cabin: Elevator, floor: Floor) -> (r: Vec<Button>)
        ensures
            r@ == Button::spec_get_buttons(cabin, floor),
    {
        let mut buttons: Vec<Button> = Vec::new();
        match cabin {
            Elevator::One => match floor {
                Floor::Ground => {
                    buttons.push(Button::GroundFloorUp1);
                    buttons.push(Button::GroundFloorCall1);
                },
                Floor::First => {
                    buttons.push(Button::FirstFloorUp1);
                    buttons.push(Button::FirstFloorDown1);
                    buttons.push(Button::FirstFloorCall1);
                },
                Floor::Second => {
                    buttons.push(Button::SecondFloorUp1);
                    buttons.push(Button::SecondFloorDown1);
                    buttons.push(Button::SecondFloorCall1);
                },
                Floor::Third => {
                    buttons.push(Button::ThirdFloorDown1);
                    buttons.push(Button::ThirdFloorCall1);
                },
            },
            Elevator::Two => match floor {
                Floor::Ground => {
                    buttons.push(Button::GroundFloorUp2);
                    buttons.push(Button::GroundFloorCall2);
                },
                Floor::First => {
                    buttons.push(Button::FirstFloorUp2);
                    buttons.push(Button::FirstFloorDown2);
                    buttons.push(Button::FirstFloorCall2);
                },
                Floor::Second => {
                    buttons.push(Button::SecondFloorUp2);
                    buttons.push(Button::SecondFloorDown2);
                    buttons.push(Button::SecondFloorCall2);
                },
                Floor::Third => {
                    buttons.push(Button::ThirdFloorDown2);
                    buttons.push(Button::ThirdFloorCall2);
                },
            },
        }
        proof {
            assert(buttons@ =~= Button::spec_get_buttons(cabin, floor));
        }
        buttons
    }
}

/// The first register address of a cabin's panel.
pub fn register_base(cabin: Elevator) -> (r: u8)
    ensures
        cabin == Elevator::One ==> r == 0x00,
        cabin == Elevator::Two ==> r == 0xA0,
{
    match cabin {
        Elevator::One => 0x00,
        Elevator::Two => 0xA0,
    }
}

/// The destination a non-emergency register offset names, for either
/// cabin.
pub open spec fn spec_offset_floor(offset: int) -> Floor {
    if offset == 0 || offset == 7 {
        Floor::Ground
    } else if offset == 1 || offset == 2 || offset == 8 {
        Floor::First
    } else if offset == 3 || offset == 4 || offset == 9 {
        Floor::Second
    } else {
        Floor::Third
    }
}

/// The destinations one register sweep requests: the floors of the
/// asserted registers from `offset` on, in register order, skipping
/// the emergency register.
pub open spec fn spec_requests_from(registers: Seq<bool>, offset: int) -> Seq<Floor>
    decreases 11 - offset,
{
    if offset < 0 || offset >= 11 {
        Seq::empty()
    } else if offset != 6 && registers[offset] {
        seq![spec_offset_floor(offset)] + spec_requests_from(registers, offset + 1)
    } else {
        spec_requests_from(registers, offset + 1)
    }
}

/// The destinations one full register sweep requests.
pub open spec fn spec_panel_requests(registers: Seq<bool>) -> Seq<Floor> {
    spec_requests_from(registers, 0)
}

/// Apply one sweep of a cabin's eleven button registers to its
/// queue.  An asserted emergency register drains the queue and
/// reports the emergency; otherwise every asserted register's floor
/// is enqueued in register order, duplicates suppressed.
pub fn scan_panel(queue: &mut FloorQueue, registers: &Vec<bool>) -> (emergency: bool)
    requires
        old(queue).wf(),
        registers@.len() == REGISTERS_PER_CABIN,
    ensures
        final(queue).wf(),
        emergency == registers@[EMERGENCY_OFFSET as int],
        emergency ==> final(queue)@ == Seq::<Floor>::empty(),
        !emergency ==> final(queue)@ == spec_enqueue_all(
            old(queue)@,
            spec_panel_requests(registers@),
        ),
{
    if registers[EMERGENCY_OFFSET] {
        queue.clear();
        return true;
    }
    let mut offset: usize = 0;
    while offset < REGISTERS_PER_CABIN
        invariant
            offset <= REGISTERS_PER_CABIN,
            registers@.len() == REGISTERS_PER_CABIN,
            queue.wf(),
            spec_enqueue_all(queue@, spec_requests_from(registers@, offset as int))
                == spec_enqueue_all(old(queue)@, spec_panel_requests(registers@)),
        decreases REGISTERS_PER_CABIN - offset,
    {
        if offset != EMERGENCY_OFFSET && registers[offset] {
            let ghost before = queue@;
            let floor = if offset == 0 || offset == 7 {
                Floor::Ground
            } else if offset == 1 || offset == 2 || offset == 8 {
                Floor::First
            } else if offset == 3 || offset == 4 || offset == 9 {
                Floor::Second
            } else {
                Floor::Third
            };
            queue.enqueue(floor);
            proof {
                assert(floor == spec_offset_floor(offset as int));
                assert(spec_requests_from(registers@, offset as int) == seq![
                    spec_offset_floor(offset as int),
                ] + spec_requests_from(registers@, offset + 1));
                assert(queue@ == spec_enqueue(before, floor));
                assert((seq![floor] + spec_requests_from(registers@, offset + 1)).skip(1)
                    =~= spec_requests_from(registers@, offset + 1));
                assert((seq![floor] + spec_requests_from(registers@, offset + 1))[0] == floor);
            }
        }
        offset = offset + 1;
    }
    false
}

/// The register image written when an emergency latches: every
/// button deasserted but the emergency indicator.
pub fn emergency_indicator() -> (r: Vec<bool>)
    ensures
        r@.len() == REGISTERS_PER_CABIN,
        r@[EMERGENCY_OFFSET as int],
        forall|i: int| 0 <= i < r@.len() && i != EMERGENCY_OFFSET ==> !r@[i],
{
    let r: Vec<bool> = vec![
        false,
        false,
        false,
        false,
        false,
        false,
        true,
        false,
        false,
        false,
        false,
    ];
    r
}

} // verus!
