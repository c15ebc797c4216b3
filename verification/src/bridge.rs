//! A model of the H-bridge, and what the sequencer guarantees of it.
//!
//! The model holds the duty cycle that each channel was last set to. It
//! exists only in specifications: it says what a sequence of steps does to
//! the bridge, so that the sequencer's output can be judged by its effect.

use crate::drive::{Channel, DriveAction};
use crate::kickstart::{kickstart_required, sequence_for, KICKSTART_DUTY, KICKSTART_MS};
use crate::speed::{DriveCommand, FULL_DUTY};
use vstd::prelude::*;

verus! {

/// The duty cycle of each channel, in percent. Zero is off.
pub struct BridgeLevels {
    pub forward: u8,
    pub reverse: u8,
}

impl BridgeLevels {
    /// The duty cycle of one channel.
    pub open spec fn level(self, channel: Channel) -> u8 {
        match channel {
            Channel::Forward => self.forward,
            Channel::Reverse => self.reverse,
        }
    }

    /// The levels with one channel set to `duty`.
    pub open spec fn with_level(self, channel: Channel, duty: u8) -> BridgeLevels {
        match channel {
            Channel::Forward => BridgeLevels { forward: duty, reverse: self.reverse },
            Channel::Reverse => BridgeLevels { forward: self.forward, reverse: duty },
        }
    }

    /// At most one channel is driven. With both driven the bridge would
    /// work against itself.
    pub open spec fn exclusive(self) -> bool {
        self.forward == 0 || self.reverse == 0
    }

    /// The levels at which the bridge rests once `cmd` is applied: the
    /// channel of the command's direction at its duty, the other off.
    pub open spec fn steady(cmd: DriveCommand) -> BridgeLevels {
        if cmd.duty == 0 {
            BridgeLevels { forward: 0, reverse: 0 }
        } else if cmd.forward {
            BridgeLevels { forward: cmd.duty, reverse: 0 }
        } else {
            BridgeLevels { forward: 0, reverse: cmd.duty }
        }
    }

    /// The levels after one step. A wait changes nothing.
    pub open spec fn step(self, action: DriveAction) -> BridgeLevels {
        match action {
            DriveAction::SetOff(channel) => self.with_level(channel, 0),
            DriveAction::SetDuty(channel, duty) => self.with_level(channel, duty),
            DriveAction::Delay(_) => self,
        }
    }

    /// The levels after the first `count` steps of `actions`.
    pub open spec fn after(self, actions: Seq<DriveAction>, count: nat) -> BridgeLevels
        decreases count,
    {
        if count == 0 {
            self
        } else {
            self.after(actions, (count - 1) as nat).step(actions[count - 1])
        }
    }

    /// The levels after all of `actions`.
    pub open spec fn after_all(self, actions: Seq<DriveAction>) -> BridgeLevels {
        self.after(actions, actions.len())
    }
}

/// A bridge that rests at the command applied last rests at the new command
/// once the sequence has run.
pub proof fn lemma_sequence_settles(last: DriveCommand, current: DriveCommand)
    ensures
        BridgeLevels::steady(last).after_all(sequence_for(last, current)) == BridgeLevels::steady(
            current,
        ),
{
    reveal_with_fuel(BridgeLevels::after, 6);
}

/// Unless the step is from stop to stop, the sequence writes both channels:
/// whatever the levels were before, the bridge then rests at the new command.
pub proof fn lemma_sequence_settles_from_any_levels(
    start: BridgeLevels,
    last: DriveCommand,
    current: DriveCommand,
)
    requires
        !(last.stopped() && current.stopped()),
    ensures
        start.after_all(sequence_for(last, current)) == BridgeLevels::steady(current),
{
    reveal_with_fuel(BridgeLevels::after, 6);
}

/// From stop to stop the sequence is empty, and only then.
pub proof fn lemma_stop_to_stop_is_idle(last: DriveCommand, current: DriveCommand)
    ensures
        sequence_for(last, current).len() == 0 <==> last.stopped() && current.stopped(),
{
}

/// At no point of the sequence are both channels driven: the channel of the
/// other direction is switched off before the driving channel is raised.
pub proof fn lemma_one_channel_at_a_time(last: DriveCommand, current: DriveCommand, count: nat)
    requires
        count <= sequence_for(last, current).len(),
    ensures
        BridgeLevels::steady(last).after(sequence_for(last, current), count).exclusive(),
{
    reveal_with_fuel(BridgeLevels::after, 6);
}

/// The sequence holds a wait exactly when a kickstart is required. It is then
/// the third step and lasts the length of the pulse, and the bridge spends it
/// with the driving channel at full duty and the other channel off.
pub proof fn lemma_pulse_precedes_steady_duty(last: DriveCommand, current: DriveCommand)
    ensures
        kickstart_required(last, current) <==> exists|i: int|
            0 <= i < sequence_for(last, current).len() && #[trigger] sequence_for(last, current)[i]
                is Delay,
        kickstart_required(last, current) ==> {
            &&& sequence_for(last, current).len() == 5
            &&& sequence_for(last, current)[2] == DriveAction::Delay(KICKSTART_MS)
            &&& BridgeLevels::steady(last).after(sequence_for(last, current), 2)
                == BridgeLevels::steady(
                DriveCommand { duty: KICKSTART_DUTY, forward: current.forward },
            )
        },
{
    reveal_with_fuel(BridgeLevels::after, 6);
    if kickstart_required(last, current) {
        assert(sequence_for(last, current)[2] is Delay);
    }
}

/// No step of the sequence sets a duty above full drive, as long as the new
/// command does not ask for one.
pub proof fn lemma_duties_within_range(last: DriveCommand, current: DriveCommand, i: int)
    requires
        current.duty <= FULL_DUTY,
        0 <= i < sequence_for(last, current).len(),
    ensures
        sequence_for(last, current)[i] matches DriveAction::SetDuty(_, duty) ==> duty <= FULL_DUTY,
{
}

} // verus!
