//! The decisions of the per-cabin move-to-floor worker.
//!
//! Each pass of the worker polls the queue — never under a latched
//! emergency — and, when a destination differs from the cabin's
//! floor, drives the engine tick by tick until the destination's
//! sensor asserts or the emergency latches.  Every tick turns the
//! encoder reading into a drive command through the PID regulator,
//! with a stiction floor of 0.05 on the commanded potency, and
//! re-derives the cabin's floor for the status sinks.  The binary
//! around this module does the sleeping and the traffic; every
//! decision is here.

use vstd::prelude::*;

use crate::common::Direction;
use crate::common::Floor;
use crate::floors::FloorsPosition;
use crate::pid::FULL_POTENCY;
use crate::pid::PidController;
use crate::pid::potency_percent;
use crate::pid::spec_pid_direction;
use crate::pid::spec_potency;
use crate::pid::spec_saturate;
use crate::queue::FloorQueue;

verus! {

/// The stiction floor imposed on every drive tick: potency 0.05 in
/// hundred-thousandths, so the cabin never stalls while the target
/// sensor is dark.
pub const MIN_MOVE_POTENCY: u32 = 5000;

/// What one queue poll of the worker yields: nothing under a latched
/// emergency or from an empty queue, else the head destination.
pub open spec fn spec_worker_poll(q: Seq<Floor>, emergency: bool) -> Option<Floor> {
    if emergency || q.len() == 0 {
        None
    } else {
        Some(q[0])
    }
}

/// Whether the drive loop carries on: only while the destination's
/// sensor is dark and no emergency is latched.
pub open spec fn spec_keep_moving(sensor_asserted: bool, emergency: bool) -> bool {
    !sensor_asserted && !emergency
}

/// The potency actually commanded on a drive tick: the regulator's
/// potency, floored at [`MIN_MOVE_POTENCY`].
pub open spec fn spec_drive_potency(error: int, last_error: int) -> int {
    if spec_potency(error, last_error) < MIN_MOVE_POTENCY {
        MIN_MOVE_POTENCY as int
    } else {
        spec_potency(error, last_error)
    }
}

/// Poll the queue for the next destination.  Under a latched
/// emergency nothing is popped and the queue is untouched.
pub fn worker_poll(queue: &mut FloorQueue, emergency: bool) -> (r: Option<Floor>)
    requires
        old(queue).wf(),
    ensures
        final(queue).wf(),
        r == spec_worker_poll(old(queue)@, emergency),
        (emergency || old(queue)@.len() == 0) ==> final(queue)@ == old(queue)@,
        !emergency && old(queue)@.len() > 0 ==> final(queue)@ == old(queue)@.drop_first(),
{
    if emergency {
        None
    } else {
        queue.pop()
    }
}

/// Whether a popped destination needs motion at all, and which way:
/// nothing when the cabin already stands there, else up towards a
/// higher floor and down towards a lower one.
pub fn begin_move(current: Floor, target: Floor) -> (r: Option<Direction>)
    ensures
        r is None <==> target == current,
        current.spec_below(target) ==> r == Some(Direction::Up),
        target.spec_below(current) ==> r == Some(Direction::Down),
{
    if target == current {
        None
    } else if current.below(target) {
        Some(Direction::Up)
    } else {
        Some(Direction::Down)
    }
}

/// Executable twin of [`spec_keep_moving`], the drive loop's guard.
pub fn keep_moving(sensor_asserted: bool, emergency: bool) -> (r: bool)
    ensures
        r == spec_keep_moving(sensor_asserted, emergency),
{
    !sensor_asserted && !emergency
}

/// Everything one drive tick decides.
pub struct MoveCommand {
    /// Direction to command the engine with.
    pub direction: Direction,
    /// Potency to command, floored at the stiction minimum.
    pub potency: u32,
    /// The raw regulator output as a whole percentage, echoed
    /// best-effort to the peripheral.
    pub echo: i32,
    /// The floor derived from this tick's encoder reading, mirrored
    /// to the status sink when it changed.
    pub floor: Floor,
}

/// One drive tick: regulate towards `target`'s calibrated position
/// from the encoder reading `position`.
pub fn move_tick(
    pid: &mut PidController,
    positions: &FloorsPosition,
    target: Floor,
    position: i32,
) -> (r: MoveCommand)
    requires
        old(pid).wf(),
    ensures
        final(pid).wf(),
        final(pid).spec_last_error() == positions.spec_position_of(target) - position,
        final(pid).spec_total_error() == spec_saturate(
            old(pid).spec_total_error() + (positions.spec_position_of(target) - position),
            -100,
            100,
        ),
        r.direction == spec_pid_direction(
            positions.spec_position_of(target) - position,
            old(pid).spec_last_error(),
        ),
        r.potency == spec_drive_potency(
            positions.spec_position_of(target) - position,
            old(pid).spec_last_error(),
        ),
        MIN_MOVE_POTENCY <= r.potency <= FULL_POTENCY,
        r.echo == spec_potency(
            positions.spec_position_of(target) - position,
            old(pid).spec_last_error(),
        ) / 1000,
        r.floor == positions.spec_derive_floor(position as int),
{
    let target_position = positions.position_of(target);
    let (raw, direction) = pid.get_control_signal(position, target_position);
    let echo = potency_percent(raw);
    let potency = if raw < MIN_MOVE_POTENCY {
        MIN_MOVE_POTENCY
    } else {
        raw
    };
    let floor = positions.derive_floor(position);
    MoveCommand { direction, potency, echo, floor }
}

/// Once the emergency latches, the worker stands still: the drive
/// loop's guard is false whatever the sensor shows, so the tick that
/// observes the latch is the last one and the engine is brought to
/// `Stop` at potency zero; and no further destination is popped,
/// whatever the queue holds.  The latch event itself drains the
/// queue — that is the emergency clause of `scan_panel`.
pub proof fn lemma_emergency_halts(q: Seq<Floor>, sensor_asserted: bool)
    ensures
        !spec_keep_moving(sensor_asserted, true),
        spec_worker_poll(q, true) is None,
{
}

} // verus!
