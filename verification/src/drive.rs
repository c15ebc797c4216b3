//! What the sequencer asks of the hardware: writes to the two channels of the
//! H-bridge, and waits.

use vstd::prelude::*;

verus! {

/// One PWM output of the H-bridge. Driving `Forward` with `Reverse` off turns
/// the motor forward, and the other way round.
#[derive(Clone, Copy, Debug, PartialEq, Eq, Structural)]
pub enum Channel {
    Forward,
    Reverse,
}

impl Channel {
    /// The channel that drives the motor in the given direction.
    pub open spec fn driving(forward: bool) -> Channel {
        if forward {
            Channel::Forward
        } else {
            Channel::Reverse
        }
    }

    /// The other channel.
    pub open spec fn other(self) -> Channel {
        match self {
            Channel::Forward => Channel::Reverse,
            Channel::Reverse => Channel::Forward,
        }
    }

    /// The channel that drives the motor in the given direction.
    pub fn for_direction(forward: bool) -> (channel: Channel)
        ensures
            channel == Channel::driving(forward),
    {
        if forward {
            Channel::Forward
        } else {
            Channel::Reverse
        }
    }

    /// The other channel.
    pub fn opposite(self) -> (channel: Channel)
        ensures
            channel == self.other(),
    {
        match self {
            Channel::Forward => Channel::Reverse,
            Channel::Reverse => Channel::Forward,
        }
    }
}

/// One step for the firmware to perform.
#[derive(Clone, Copy, Debug, PartialEq, Eq, Structural)]
pub enum DriveAction {
    /// Switch the channel fully off.
    SetOff(Channel),
    /// Set the channel's duty cycle, in percent.
    SetDuty(Channel, u8),
    /// Block for the given number of milliseconds.
    Delay(u32),
}

} // verus!
