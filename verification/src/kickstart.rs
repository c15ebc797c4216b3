//! The kickstart sequencer.
//!
//! A motor at rest, or one that is to turn the other way, does not start
//! reliably at a low duty cycle. The sequencer compares the command that was
//! applied last with the new one, and where the motor starts or reverses it
//! puts a short pulse at full duty before the steady duty.

use crate::drive::{Channel, DriveAction};
use crate::speed::{command_for, DriveCommand, MotorSpeed};
use vstd::prelude::*;

verus! {

/// The duty cycle of the kickstart pulse, in percent.
pub const KICKSTART_DUTY: u8 = 100;

/// The length of the kickstart pulse, in milliseconds.
pub const KICKSTART_MS: u32 = 150;

/// A kickstart is required when the new command drives the motor and it
/// either stood still or turned the other way.
pub open spec fn kickstart_required(last: DriveCommand, current: DriveCommand) -> bool {
    current.duty > 0 && (last.duty == 0 || last.forward != current.forward)
}

/// The steps that take the bridge from the command applied last to the new
/// one, in the order in which they are performed.
///
/// - From stop to stop there is nothing to do.
/// - To stop, both channels are switched off.
/// - To drive, the channel of the other direction is switched off and the
///   channel of the new direction gets the new duty. Where a kickstart is
///   required, the pulse comes first: other channel off, driving channel at
///   full duty, and the wait.
pub open spec fn sequence_for(last: DriveCommand, current: DriveCommand) -> Seq<DriveAction> {
    let active = Channel::driving(current.forward);
    let inactive = active.other();
    if current.duty == 0 {
        if last.duty == 0 {
            seq![]
        } else {
            seq![DriveAction::SetOff(Channel::Forward), DriveAction::SetOff(Channel::Reverse)]
        }
    } else if kickstart_required(last, current) {
        seq![
            DriveAction::SetOff(inactive),
            DriveAction::SetDuty(active, KICKSTART_DUTY),
            DriveAction::Delay(KICKSTART_MS),
            DriveAction::SetOff(inactive),
            DriveAction::SetDuty(active, current.duty),
        ]
    } else {
        seq![DriveAction::SetOff(inactive), DriveAction::SetDuty(active, current.duty)]
    }
}

/// Decides whether the step from `last` to `current` needs a kickstart pulse.
pub fn needs_kickstart(last: DriveCommand, current: DriveCommand) -> (needed: bool)
    ensures
        needed == kickstart_required(last, current),
{
    current.duty > 0 && (last.duty == 0 || last.forward != current.forward)
}

/// Lays out the steps that take the bridge from `last` to `current`.
pub fn drive_sequence(last: DriveCommand, current: DriveCommand) -> (actions: Vec<DriveAction>)
    ensures
        actions@ == sequence_for(last, current),
{
    let mut actions: Vec<DriveAction> = Vec::new();
    if current.duty == 0 {
        if last.duty != 0 {
            actions.push(DriveAction::SetOff(Channel::Forward));
            actions.push(DriveAction::SetOff(Channel::Reverse));
        }
    } else {
        let active = Channel::for_direction(current.forward);
        let inactive = active.opposite();
        if needs_kickstart(last, current) {
            actions.push(DriveAction::SetOff(inactive));
            actions.push(DriveAction::SetDuty(active, KICKSTART_DUTY));
            actions.push(DriveAction::Delay(KICKSTART_MS));
        }
        actions.push(DriveAction::SetOff(inactive));
        actions.push(DriveAction::SetDuty(active, current.duty));
    }
    assert(actions@ =~= sequence_for(last, current));
    actions
}

/// Lays out the steps that take the motor from the speed applied last to the
/// new speed: both are mapped to drive commands, and the commands are
/// sequenced.
pub fn apply_motor_speed(last: MotorSpeed, current: MotorSpeed) -> (actions: Vec<DriveAction>)
    ensures
        actions@ == sequence_for(command_for(last@), command_for(current@)),
{
    let target = current.to_duty_and_direction();
    let previous = last.to_duty_and_direction();
    drive_sequence(previous, target)
}

/// The four transitions between stopped and driving, and what each asks for:
/// a start and a reversal need the pulse, a change of duty in the same
/// direction and a stop do not.
pub proof fn lemma_kickstart_transitions(last: DriveCommand, current: DriveCommand)
    ensures
        last.stopped() && !current.stopped() ==> kickstart_required(last, current),
        !last.stopped() && !current.stopped() && last.forward != current.forward
            ==> kickstart_required(last, current),
        !last.stopped() && !current.stopped() && last.forward == current.forward
            ==> !kickstart_required(last, current),
        current.stopped() ==> !kickstart_required(last, current),
{
}

} // verus!
