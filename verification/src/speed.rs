//! The commanded speed and its mapping to a duty cycle and a direction.

use vstd::prelude::*;

verus! {

/// Lowest duty cycle, in percent, that still turns the motor against static
/// friction. Every nonzero speed is raised to it.
pub const MIN_DUTY: u8 = 40;

/// The duty cycle, in percent, of a channel that is fully on.
pub const FULL_DUTY: u8 = 100;

/// The speed that stands for full drive: `32767` forward, `-32767` reverse.
pub const FULL_SPEED: i16 = 32767;

/// What the H-bridge is asked to do: a duty cycle in percent and the
/// direction of rotation. A duty of zero means stopped, whatever `forward`
/// says.
#[derive(Clone, Copy, Debug, PartialEq, Eq, Structural)]
pub struct DriveCommand {
    pub duty: u8,
    pub forward: bool,
}

impl DriveCommand {
    /// The duty is zero, or lies between the floor and full drive.
    pub open spec fn wf(&self) -> bool {
        self.duty == 0 || MIN_DUTY <= self.duty <= FULL_DUTY
    }

    /// The command asks for no motion.
    pub open spec fn stopped(&self) -> bool {
        self.duty == 0
    }
}

/// The size of a speed, without its sign.
pub open spec fn magnitude(speed: int) -> int {
    if speed >= 0 {
        speed
    } else {
        -speed
    }
}

/// The duty cycle for a speed: zero for zero, else the magnitude scaled
/// linearly so that full speed gives 100, capped at 100 and raised to the
/// floor.
pub open spec fn duty_for(speed: int) -> int {
    let scaled = magnitude(speed) * 100 / (FULL_SPEED as int);
    let capped = if scaled > FULL_DUTY {
        FULL_DUTY as int
    } else {
        scaled
    };
    if magnitude(speed) == 0 {
        0
    } else if capped < MIN_DUTY {
        MIN_DUTY as int
    } else {
        capped
    }
}

/// The drive command for a speed.
pub open spec fn command_for(speed: int) -> DriveCommand {
    DriveCommand { duty: duty_for(speed) as u8, forward: speed >= 0 }
}

/// A speed as the host commands it: `-32767` is full reverse, `0` is stop,
/// `32767` is full forward.
#[derive(Clone, Copy, Debug, PartialEq, Eq, Structural)]
pub struct MotorSpeed {
    pub speed_normalized: i16,
}

impl View for MotorSpeed {
    type V = int;

    open spec fn view(&self) -> int {
        self.speed_normalized as int
    }
}

impl MotorSpeed {
    /// Maps the speed to a duty cycle and a direction.
    ///
    /// The one value below the symmetric range, `-32768`, is taken by its
    /// true magnitude in a wider type, so nothing overflows; it maps to full
    /// reverse.
    pub fn to_duty_and_direction(&self) -> (cmd: DriveCommand)
        ensures
            cmd == command_for(self@),
            cmd.duty == duty_for(self@),
            cmd.forward == (self@ >= 0),
            cmd.wf(),
    {
        let wide: i32 = self.speed_normalized as i32;
        let abs_speed: u32 = if wide >= 0 {
            wide as u32
        } else {
            (-wide) as u32
        };
        let is_forward = self.speed_normalized >= 0;
        let duty: u8 = if abs_speed == 0 {
            0
        } else {
            let scaled: u32 = abs_speed * 100 / 32767;
            let capped: u8 = if scaled > 100 {
                FULL_DUTY
            } else {
                scaled as u8
            };
            if capped < MIN_DUTY {
                MIN_DUTY
            } else {
                capped
            }
        };
        DriveCommand { duty, forward: is_forward }
    }
}

/// A speed of magnitude zero maps to a duty of zero.
pub proof fn lemma_zero_speed_gives_zero_duty(speed: MotorSpeed)
    requires
        magnitude(speed@) == 0,
    ensures
        command_for(speed@).duty == 0,
        command_for(speed@).stopped(),
{
}

/// Every nonzero speed maps to a duty between the floor and full drive, so a
/// commanded motion is never too weak to turn the motor.
pub proof fn lemma_nonzero_speed_duty_in_range(speed: MotorSpeed)
    requires
        0 < magnitude(speed@),
    ensures
        MIN_DUTY <= command_for(speed@).duty <= FULL_DUTY,
        !command_for(speed@).stopped(),
{
}

/// The direction is forward exactly for the speeds that are not negative.
pub proof fn lemma_direction_follows_sign(speed: MotorSpeed)
    ensures
        command_for(speed@).forward == (speed@ >= 0),
{
}

/// Every speed maps to a well-formed command.
pub proof fn lemma_command_wf(speed: MotorSpeed)
    ensures
        command_for(speed@).wf(),
        command_for(speed@).duty == duty_for(speed@),
{
}

/// Among forward speeds, a larger speed never maps to a smaller duty.
pub proof fn lemma_duty_monotonic(a: MotorSpeed, b: MotorSpeed)
    requires
        0 < a@ <= b@,
    ensures
        command_for(a@).duty <= command_for(b@).duty,
{
}

/// In either direction, a speed of larger magnitude never maps to a smaller
/// duty.
pub proof fn lemma_duty_monotonic_in_magnitude(a: MotorSpeed, b: MotorSpeed)
    requires
        0 < magnitude(a@) <= magnitude(b@),
    ensures
        command_for(a@).duty <= command_for(b@).duty,
{
}

/// The mapping does not look at the sign when it picks the duty.
pub proof fn lemma_duty_symmetric(speed: int)
    ensures
        duty_for(-speed) == duty_for(speed),
{
}

} // verus!
