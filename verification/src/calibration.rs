//! The calibration procedure that learns the encoder position of
//! each floor.
//!
//! The run first drives the cabin down at full potency until the
//! encoder reaches its origin, then rises slowly through each
//! floor's sensor window: the encoder value at the window's rising
//! edge and at its falling edge are recorded, and the floor's
//! position is their midpoint.  This module holds the decisions of
//! that procedure — the drive commands, the phase transitions and
//! the midpoint arithmetic; the binary around it moves the engine,
//! polls the encoder and watches the sensors.

use vstd::arithmetic::div_mod::lemma_fundamental_div_mod;
use vstd::arithmetic::div_mod::lemma_mod_pos_bound;
use vstd::prelude::*;

use crate::common::Direction;
use crate::floors::FloorsPosition;
use crate::pid::FULL_POTENCY;

verus! {

/// The slow rise used while hunting for sensor edges: potency 0.10,
/// in hundred-thousandths of full scale.
pub const SEEK_POTENCY: u32 = 10000;

/// The midpoint of a sensor window, rounded towards zero the way the
/// recording divides: `(rise + fall) / 2`.
pub open spec fn spec_midpoint(rise: int, fall: int) -> int {
    if rise + fall >= 0 {
        (rise + fall) / 2
    } else {
        -((-(rise + fall)) / 2)
    }
}

/// The midpoint of a window lies inside it.
pub proof fn lemma_midpoint_between(rise: int, fall: int)
    requires
        rise <= fall,
    ensures
        rise <= spec_midpoint(rise, fall) <= fall,
{
    let s = rise + fall;
    if s >= 0 {
        lemma_fundamental_div_mod(s, 2);
        lemma_mod_pos_bound(s, 2);
    } else {
        lemma_fundamental_div_mod(-s, 2);
        lemma_mod_pos_bound(-s, 2);
    }
}

/// Where a calibration run stands.
#[derive(Clone, Copy, PartialEq, Eq, Structural, Debug)]
pub enum CalibrationPhase {
    /// Driving down until the encoder reaches its origin.
    Descending,
    /// Rising until the current floor's sensor asserts.
    AwaitRise,
    /// Rising until the current floor's sensor releases.
    AwaitFall,
    /// All four floors recorded.
    Complete,
}

/// One calibration run: the phase, how many floors are fully
/// recorded, the rising edge of the window being measured, and the
/// positions learned so far.
pub struct CalibrationRun {
    phase: CalibrationPhase,
    completed: u8,
    rise: i32,
    positions: FloorsPosition,
}

impl CalibrationRun {
    /// Where the run stands.
    pub closed spec fn spec_phase(self) -> CalibrationPhase {
        self.phase
    }

    /// How many floors are fully recorded, from the ground up.
    pub closed spec fn spec_completed(self) -> int {
        self.completed as int
    }

    /// The rising edge recorded for the window being measured.
    pub closed spec fn spec_rise(self) -> i32 {
        self.rise
    }

    /// The positions learned so far.
    pub closed spec fn spec_positions(self) -> FloorsPosition {
        self.positions
    }

    /// The state every transition preserves: the count of recorded
    /// floors matches the phase.
    pub open spec fn wf(self) -> bool {
        match self.spec_phase() {
            CalibrationPhase::Descending => self.spec_completed() == 0,
            CalibrationPhase::AwaitRise => 0 <= self.spec_completed() <= 3,
            CalibrationPhase::AwaitFall => 0 <= self.spec_completed() <= 3,
            CalibrationPhase::Complete => self.spec_completed() == 4,
        }
    }

    /// A fresh run, about to seat the cabin at the bottom.
    pub fn new() -> (r: CalibrationRun)
        ensures
            r.wf(),
            r.spec_phase() == CalibrationPhase::Descending,
    {
        CalibrationRun {
            phase: CalibrationPhase::Descending,
            completed: 0,
            rise: 0,
            positions: FloorsPosition { ground: 0, first: 0, second: 0, third: 0 },
        }
    }

    /// The engine command for the current phase: full potency down
    /// while seating, a slow rise while hunting for edges, and a
    /// stop once complete.
    pub fn command(&self) -> (r: (Direction, u32))
        ensures
            self.spec_phase() == CalibrationPhase::Descending ==> r == (
                Direction::Down,
                FULL_POTENCY,
            ),
            self.spec_phase() == CalibrationPhase::AwaitRise ==> r == (
                Direction::Up,
                SEEK_POTENCY,
            ),
            self.spec_phase() == CalibrationPhase::AwaitFall ==> r == (
                Direction::Up,
                SEEK_POTENCY,
            ),
            self.spec_phase() == CalibrationPhase::Complete ==> r == (Direction::Stop, 0u32),
    {
        match self.phase {
            CalibrationPhase::Descending => (Direction::Down, FULL_POTENCY),
            CalibrationPhase::AwaitRise => (Direction::Up, SEEK_POTENCY),
            CalibrationPhase::AwaitFall => (Direction::Up, SEEK_POTENCY),
            CalibrationPhase::Complete => (Direction::Stop, 0),
        }
    }

    /// One encoder poll while descending: the cabin is seated once
    /// the reading is at or below the origin, and measuring starts
    /// at the ground floor.
    pub fn descent_tick(&mut self, position: i32) -> (seated: bool)
        requires
            old(self).wf(),
            old(self).spec_phase() == CalibrationPhase::Descending,
        ensures
            final(self).wf(),
            seated == (position <= 0),
            seated ==> final(self).spec_phase() == CalibrationPhase::AwaitRise,
            !seated ==> *final(self) == *old(self),
            final(self).spec_completed() == 0,
            final(self).spec_positions() == old(self).spec_positions(),
    {
        if position <= 0 {
            self.phase = CalibrationPhase::AwaitRise;
            true
        } else {
            false
        }
    }

    /// The sensor of the floor being measured asserted: record the
    /// window's rising edge and hunt for its falling edge.
    pub fn record_rise(&mut self, position: i32)
        requires
            old(self).wf(),
            old(self).spec_phase() == CalibrationPhase::AwaitRise,
        ensures
            final(self).wf(),
            final(self).spec_phase() == CalibrationPhase::AwaitFall,
            final(self).spec_rise() == position,
            final(self).spec_completed() == old(self).spec_completed(),
            final(self).spec_positions() == old(self).spec_positions(),
    {
        self.rise = position;
        self.phase = CalibrationPhase::AwaitFall;
    }

    /// The sensor of the floor being measured released: store the
    /// window's midpoint as the floor's position and move on to the
    /// next floor, or complete the run after the top one.
    pub fn record_fall(&mut self, position: i32)
        requires
            old(self).wf(),
            old(self).spec_phase() == CalibrationPhase::AwaitFall,
        ensures
            final(self).wf(),
            final(self).spec_completed() == old(self).spec_completed() + 1,
            final(self).spec_phase() == (if old(self).spec_completed() == 3 {
                CalibrationPhase::Complete
            } else {
                CalibrationPhase::AwaitRise
            }),
            old(self).spec_completed() == 0 ==> final(self).spec_positions() == (FloorsPosition {
                ground: spec_midpoint(old(self).spec_rise() as int, position as int) as i32,
                ..old(self).spec_positions()
            }),
            old(self).spec_completed() == 1 ==> final(self).spec_positions() == (FloorsPosition {
                first: spec_midpoint(old(self).spec_rise() as int, position as int) as i32,
                ..old(self).spec_positions()
            }),
            old(self).spec_completed() == 2 ==> final(self).spec_positions() == (FloorsPosition {
                second: spec_midpoint(old(self).spec_rise() as int, position as int) as i32,
                ..old(self).spec_positions()
            }),
            old(self).spec_completed() == 3 ==> final(self).spec_positions() == (FloorsPosition {
                third: spec_midpoint(old(self).spec_rise() as int, position as int) as i32,
                ..old(self).spec_positions()
            }),
    {
        let mid = floor_midpoint(self.rise, position);
        if self.completed == 0 {
            self.positions.ground = mid;
        } else if self.completed == 1 {
            self.positions.first = mid;
        } else if self.completed == 2 {
            self.positions.second = mid;
        } else {
            self.positions.third = mid;
        }
        self.completed = self.completed + 1;
        if self.completed == 4 {
            self.phase = CalibrationPhase::Complete;
        } else {
            self.phase = CalibrationPhase::AwaitRise;
        }
    }

    /// Whether all four floors are recorded.
    pub fn finished(&self) -> (r: bool)
        requires
            self.wf(),
        ensures
            r == (self.spec_phase() == CalibrationPhase::Complete),
    {
        match self.phase {
            CalibrationPhase::Complete => true,
            _ => false,
        }
    }

    /// The learned positions of a completed run.
    pub fn positions(&self) -> (r: FloorsPosition)
        requires
            self.wf(),
            self.spec_phase() == CalibrationPhase::Complete,
        ensures
            r == self.spec_positions(),
    {
        self.positions
    }
}

/// The midpoint of a sensor window, executable.
pub fn floor_midpoint(rise: i32, fall: i32) -> (r: i32)
    ensures
        r == spec_midpoint(rise as int, fall as int),
{
    let s: i64 = rise as i64 + fall as i64;
    if s >= 0 {
        let m: u64 = (s as u64) / 2;
        proof {
            lemma_fundamental_div_mod(s as int, 2);
            lemma_mod_pos_bound(s as int, 2);
        }
        m as i32
    } else {
        let m: u64 = ((-s) as u64) / 2;
        proof {
            lemma_fundamental_div_mod(-(s as int), 2);
            lemma_mod_pos_bound(-(s as int), 2);
        }
        (-(m as i64)) as i32
    }
}

/// The learning procedure rises monotonically, so each floor's
/// sensor window lies strictly above the previous floor's.  Whenever
/// the recorded edges are ordered that way, the learned positions
/// rise strictly from the ground up.
pub proof fn lemma_calibration_ordered(
    r0: int,
    f0: int,
    r1: int,
    f1: int,
    r2: int,
    f2: int,
    r3: int,
    f3: int,
)
    requires
        r0 <= f0 < r1 <= f1 < r2 <= f2 < r3 <= f3,
    ensures
        spec_midpoint(r0, f0) < spec_midpoint(r1, f1),
        spec_midpoint(r1, f1) < spec_midpoint(r2, f2),
        spec_midpoint(r2, f2) < spec_midpoint(r3, f3),
{
    lemma_midpoint_between(r0, f0);
    lemma_midpoint_between(r1, f1);
    lemma_midpoint_between(r2, f2);
    lemma_midpoint_between(r3, f3);
}

} // verus!
