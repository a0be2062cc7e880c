//! The rig's basic vocabulary: cabins, floors, travel directions and
//! encoder channels.

use vstd::prelude::*;

verus! {

/// One of the two cabins sharing the controller.
#[derive(Clone, Copy, PartialEq, Eq, Structural, Debug)]
pub enum Elevator {
    One,
    Two,
}

impl Elevator {
    /// Cabin identifier byte carried on the wire (temperature frames).
    pub open spec fn spec_code(self) -> u8 {
        match self {
            Elevator::One => 0x00,
            Elevator::Two => 0x01,
        }
    }

    /// Executable twin of [`Self::spec_code`].
    #[verifier::when_used_as_spec(spec_code)]
    pub fn code(self) -> (r: u8)
        ensures
            r == self.spec_code(),
    {
        match self {
            Elevator::One => 0x00,
            Elevator::Two => 0x01,
        }
    }
}

/// A floor served by the rig.  The variants are ordered from bottom to
/// top; direction decisions compare floors through [`Self::number`].
/// A cabin whose floor has not been determined yet is represented as
/// `Option::<Floor>::None` by the callers, never as an extra variant.
#[derive(Clone, Copy, PartialEq, Eq, Structural, Debug)]
pub enum Floor {
    Ground,
    First,
    Second,
    Third,
}

impl Floor {
    /// Height rank of the floor: `Ground` is 0, `Third` is 3.
    pub open spec fn spec_number(self) -> u8 {
        match self {
            Floor::Ground => 0,
            Floor::First => 1,
            Floor::Second => 2,
            Floor::Third => 3,
        }
    }

    /// Executable twin of [`Self::spec_number`].
    #[verifier::when_used_as_spec(spec_number)]
    pub fn number(self) -> (r: u8)
        ensures
            r == self.spec_number(),
    {
        match self {
            Floor::Ground => 0,
            Floor::First => 1,
            Floor::Second => 2,
            Floor::Third => 3,
        }
    }

    /// True when `self` lies below `other` in the shaft.
    pub open spec fn spec_below(self, other: Floor) -> bool {
        self.spec_number() < other.spec_number()
    }

    /// Executable twin of [`Self::spec_below`].
    #[verifier::when_used_as_spec(spec_below)]
    pub fn below(self, other: Floor) -> (r: bool)
        ensures
            r == self.spec_below(other),
    {
        self.number() < other.number()
    }

    /// The floor of a given rank, the inverse of [`Self::number`].
    pub fn from_number(n: u8) -> (r: Floor)
        requires
            n <= 3,
        ensures
            r.spec_number() == n,
    {
        if n == 0 {
            Floor::Ground
        } else if n == 1 {
            Floor::First
        } else if n == 2 {
            Floor::Second
        } else {
            Floor::Third
        }
    }
}

/// Travel direction of a cabin.  An idle cabin holds `Stop`.
#[derive(Clone, Copy, PartialEq, Eq, Structural, Debug)]
pub enum Direction {
    Up,
    Down,
    Stop,
}

impl Direction {
    /// The levels the two direction pins of the engine driver must
    /// take for this direction: `Up` is high/low, `Down` is low/high
    /// and `Stop` brakes with high/high.  There is no fourth state.
    pub open spec fn spec_pin_levels(self) -> (bool, bool) {
        match self {
            Direction::Up => (true, false),
            Direction::Down => (false, true),
            Direction::Stop => (true, true),
        }
    }

    /// Executable twin of [`Self::spec_pin_levels`].
    #[verifier::when_used_as_spec(spec_pin_levels)]
    pub fn pin_levels(self) -> (r: (bool, bool))
        ensures
            r == self.spec_pin_levels(),
    {
        match self {
            Direction::Up => (true, false),
            Direction::Down => (false, true),
            Direction::Stop => (true, true),
        }
    }
}

/// The two direction pins are always in one of the three states the
/// driver knows: the low/low half-state is never commanded, and no
/// two directions share a pin image, so the pins always show exactly
/// the commanded direction.
pub proof fn lemma_pin_levels_well_defined()
    ensures
        forall|d: Direction| (#[trigger] d.spec_pin_levels()) != (false, false),
        forall|d1: Direction, d2: Direction|
            #[trigger] d1.spec_pin_levels() == #[trigger] d2.spec_pin_levels() ==> d1 == d2,
{
    assert(Direction::Up.spec_pin_levels() != (false, false));
    assert(Direction::Down.spec_pin_levels() != (false, false));
    assert(Direction::Stop.spec_pin_levels() != (false, false));
    assert forall|d1: Direction, d2: Direction|
        #[trigger] d1.spec_pin_levels() == #[trigger] d2.spec_pin_levels() implies d1 == d2 by {
        match d1 {
            Direction::Up => {},
            Direction::Down => {},
            Direction::Stop => {},
        }
    }
}

/// A quadrature encoder channel: one per cabin.
#[derive(Clone, Copy, PartialEq, Eq, Structural, Debug)]
pub enum Encoder {
    One,
    Two,
}

impl Encoder {
    /// Encoder identifier byte carried on the wire.
    pub open spec fn spec_code(self) -> u8 {
        match self {
            Encoder::One => 0x00,
            Encoder::Two => 0x01,
        }
    }

    /// Executable twin of [`Self::spec_code`].
    #[verifier::when_used_as_spec(spec_code)]
    pub fn code(self) -> (r: u8)
        ensures
            r == self.spec_code(),
    {
        match self {
            Encoder::One => 0x00,
            Encoder::Two => 0x01,
        }
    }
}

} // verus!
