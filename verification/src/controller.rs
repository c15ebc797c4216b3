//! The state of the control loop, and its step.
//!
//! The firmware polls for a report and hands the bytes to
//! [`ControllerState::on_report`]. Where that returns a speed and its steps,
//! the firmware performs the steps, one by one and to the end, and then
//! records the speed with [`ControllerState::commit`]. Only then does it poll
//! again. So the state changes only once a speed has been applied.

use crate::bridge::BridgeLevels;
use crate::drive::DriveAction;
use crate::kickstart::{apply_motor_speed, sequence_for};
use crate::report::{decode_report, decoded, REPORT_LEN};
use crate::speed::{command_for, MotorSpeed};
use vstd::prelude::*;

verus! {

/// The speed that a report brings to a loop whose last speed is `last`:
/// the decoded speed if the report is well-formed and the speed is new,
/// nothing otherwise.
pub open spec fn accepted(last: int, bytes: Seq<u8>) -> Option<MotorSpeed> {
    match decoded(bytes) {
        Some(speed) => if speed@ != last {
            Some(speed)
        } else {
            None
        },
        None => None,
    }
}

/// The speed that the loop holds after a report.
pub open spec fn speed_after(last: int, bytes: Seq<u8>) -> int {
    match accepted(last, bytes) {
        Some(speed) => speed@,
        None => last,
    }
}

/// The steps that a report asks for. A report that is not accepted asks for
/// none.
pub open spec fn steps_for(last: int, bytes: Seq<u8>) -> Seq<DriveAction> {
    match accepted(last, bytes) {
        Some(speed) => sequence_for(command_for(last), command_for(speed@)),
        None => seq![],
    }
}

/// What the control loop remembers between reports: the speed that it
/// applied last.
pub struct ControllerState {
    last_speed: MotorSpeed,
}

impl View for ControllerState {
    type V = int;

    closed spec fn view(&self) -> int {
        self.last_speed@
    }
}

impl ControllerState {
    /// The state at startup: the motor is stopped.
    pub fn new() -> (state: ControllerState)
        ensures
            state@ == 0,
            command_for(state@).stopped(),
    {
        ControllerState { last_speed: MotorSpeed { speed_normalized: 0 } }
    }

    /// The speed that was applied last.
    pub fn last_speed(&self) -> (speed: MotorSpeed)
        ensures
            speed@ == self@,
    {
        self.last_speed
    }

    /// Takes a decoded speed and says what it asks for. A speed that differs
    /// from the last one is to be applied: the result holds the steps. The
    /// same speed again asks for nothing. The state is left as it is.
    pub fn accept(&self, speed: MotorSpeed) -> (steps: Option<Vec<DriveAction>>)
        ensures
            speed@ == self@ ==> steps is None,
            speed@ != self@ ==> steps is Some && steps->0@ == sequence_for(
                command_for(self@),
                command_for(speed@),
            ),
    {
        if speed.speed_normalized != self.last_speed.speed_normalized {
            Some(apply_motor_speed(self.last_speed, speed))
        } else {
            None
        }
    }

    /// Takes the bytes of one read and says what they ask for. A malformed
    /// report and a report that repeats the last speed are ignored. Any
    /// other report is to be applied: the result holds its speed and the
    /// steps that take the motor there. The state is left as it is.
    pub fn on_report(&self, bytes: &[u8]) -> (change: Option<(MotorSpeed, Vec<DriveAction>)>)
        ensures
            change is Some <==> accepted(self@, bytes@) is Some,
            change matches Some((speed, steps)) ==> Some(speed) == accepted(self@, bytes@)
                && speed@ == speed_after(self@, bytes@) && steps@ == steps_for(self@, bytes@),
    {
        match decode_report(bytes) {
            Some(speed) => match self.accept(speed) {
                Some(steps) => Some((speed, steps)),
                None => None,
            },
            None => None,
        }
    }

    /// Records that `speed` has been applied: its steps were performed to
    /// the end.
    pub fn commit(&mut self, speed: MotorSpeed)
        ensures
            final(self)@ == speed@,
    {
        self.last_speed = speed;
    }
}

/// The state follows the bridge. If the bridge rests at the command of the
/// last speed when a report comes in, and the firmware performs the steps
/// that the report asks for and records its speed, the bridge rests at the
/// command of the speed that the loop then holds. So every kickstart
/// decision is made against what the bridge really does.
pub proof fn lemma_state_tracks_bridge(last: MotorSpeed, bytes: Seq<u8>)
    ensures
        BridgeLevels::steady(command_for(last@)).after_all(steps_for(last@, bytes))
            == BridgeLevels::steady(command_for(speed_after(last@, bytes))),
{
    reveal_with_fuel(BridgeLevels::after, 6);
}

/// A report of the wrong length leaves the loop as it was.
pub proof fn lemma_malformed_report_ignored(last: MotorSpeed, bytes: Seq<u8>)
    requires
        bytes.len() != REPORT_LEN,
    ensures
        accepted(last@, bytes) is None,
        speed_after(last@, bytes) == last@,
        steps_for(last@, bytes).len() == 0,
{
}

/// Once the speed of a report is recorded, the same report again is ignored.
pub proof fn lemma_repeated_report_ignored(last: MotorSpeed, bytes: Seq<u8>)
    ensures
        accepted(speed_after(last@, bytes), bytes) is None,
{
}

} // verus!
