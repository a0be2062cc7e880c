//! The per-cabin incremental PID regulator.
//!
//! Each tick takes the encoder position and the target position and
//! yields a drive potency and a direction.  The gains are part of the
//! contract: proportional 0.005, integral 0, derivative 0.01 with a
//! unit sample time, and the control signal saturates at 100 units.
//!
//! The regulator works in exact fixed point so that every step is a
//! provable integer computation: the control signal is kept in
//! thousandths of a unit, so the raw signal is `5·error + 10·delta`,
//! saturating at ±100000.  The returned potency is the saturated
//! magnitude itself, in hundred-thousandths of full scale: 100000
//! means full drive, 5000 means the 0.05 stiction floor.

use vstd::prelude::*;

use crate::common::Direction;

verus! {

/// Full drive, as a potency in hundred-thousandths.
pub const FULL_POTENCY: u32 = 100000;

/// Saturate `v` into `[lo, hi]`, the way the regulator does: values
/// at or beyond a bound stick to it.
pub open spec fn spec_saturate(v: int, lo: int, hi: int) -> int {
    if v >= hi {
        hi
    } else if v <= lo {
        lo
    } else {
        v
    }
}

/// The raw control signal in thousandths of a unit:
/// `0.005·error + 0.01·(error − last_error)`, scaled by 1000.
pub open spec fn spec_control_raw(error: int, last_error: int) -> int {
    5 * error + 10 * (error - last_error)
}

/// The saturated control signal in thousandths of a unit.
pub open spec fn spec_control_signal(error: int, last_error: int) -> int {
    spec_saturate(spec_control_raw(error, last_error), -100000, 100000)
}

/// The potency a tick yields: the magnitude of the saturated control
/// signal, which reads as a fraction of [`FULL_POTENCY`].
pub open spec fn spec_potency(error: int, last_error: int) -> int {
    if spec_control_signal(error, last_error) >= 0 {
        spec_control_signal(error, last_error)
    } else {
        -spec_control_signal(error, last_error)
    }
}

/// The direction a tick yields: up on a non-negative control signal,
/// down otherwise.
pub open spec fn spec_pid_direction(error: int, last_error: int) -> Direction {
    if spec_control_signal(error, last_error) >= 0 {
        Direction::Up
    } else {
        Direction::Down
    }
}

/// The regulator's state: the saturated error integral and the error
/// of the previous tick.
pub struct PidController {
    total_error: i64,
    last_error: i64,
}

impl PidController {
    /// The saturated error integral.  The integral gain is zero, so
    /// it never reaches the output; it is kept because it is part of
    /// the regulator's documented state.
    pub closed spec fn spec_total_error(self) -> int {
        self.total_error as int
    }

    /// The error seen by the previous tick, 0 before the first one.
    pub closed spec fn spec_last_error(self) -> int {
        self.last_error as int
    }

    /// The state every constructor establishes and every tick
    /// preserves: the integral is saturated and the previous error is
    /// a difference of two encoder positions.
    pub open spec fn wf(self) -> bool {
        &&& -100 <= self.spec_total_error() <= 100
        &&& -0xFFFF_FFFF <= self.spec_last_error() <= 0xFFFF_FFFF
    }

    /// A fresh regulator with no accumulated state.
    pub fn new() -> (r: PidController)
        ensures
            r.wf(),
            r.spec_total_error() == 0,
            r.spec_last_error() == 0,
    {
        PidController { total_error: 0, last_error: 0 }
    }

    /// One regulator tick: from the cabin position `origin` and the
    /// floor position `target`, the potency and direction to drive
    /// with.
    pub fn get_control_signal(&mut self, origin: i32, target: i32) -> (r: (u32, Direction))
        requires
            old(self).wf(),
        ensures
            final(self).wf(),
            final(self).spec_last_error() == target - origin,
            final(self).spec_total_error() == spec_saturate(
                old(self).spec_total_error() + (target - origin),
                -100,
                100,
            ),
            r.0 == spec_potency(target - origin, old(self).spec_last_error()),
            r.1 == spec_pid_direction(target - origin, old(self).spec_last_error()),
            r.0 <= FULL_POTENCY,
    {
        let error: i64 = (target as i64) - (origin as i64);

        let mut total: i64 = self.total_error + error;
        if total >= 100 {
            total = 100;
        } else if total <= -100 {
            total = -100;
        }
        self.total_error = total;

        let delta: i64 = error - self.last_error;

        let mut signal: i64 = 5 * error + 10 * delta;
        if signal >= 100000 {
            signal = 100000;
        } else if signal <= -100000 {
            signal = -100000;
        }

        self.last_error = error;

        if signal >= 0 {
            (signal as u32, Direction::Up)
        } else {
            ((-signal) as u32, Direction::Down)
        }
    }
}

/// The control signal echoed to the peripheral: the potency as a
/// whole percentage, truncated.
pub fn potency_percent(potency: u32) -> (r: i32)
    requires
        potency <= FULL_POTENCY,
    ensures
        r == potency as int / 1000,
        0 <= r <= 100,
{
    (potency / 1000) as i32
}

/// A fresh regulator saturates on any error of magnitude at least
/// 20000: the tick yields full potency, and the direction follows the
/// sign of the error — up towards a higher target, down towards a
/// lower one.
pub proof fn lemma_pid_saturation(origin: int, target: int)
    requires
        target - origin >= 20000 || origin - target >= 20000,
    ensures
        spec_potency(target - origin, 0) == FULL_POTENCY,
        target > origin ==> spec_pid_direction(target - origin, 0) == Direction::Up,
        target < origin ==> spec_pid_direction(target - origin, 0) == Direction::Down,
{
}

} // verus!
