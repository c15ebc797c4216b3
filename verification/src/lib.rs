//! Command interpretation and drive sequencing for a brushed reaction-wheel
//! motor behind a two-channel H-bridge.
//!
//! A host sends a signed 16-bit speed over USB HID. This crate decodes the
//! report, maps the speed to a duty cycle and a direction, decides whether
//! the motor needs a kickstart pulse, and lays out the channel writes in the
//! order in which the firmware has to perform them. It touches no hardware:
//! the firmware performs the writes and the wait that a sequence names.

pub mod axis;
pub mod bridge;
pub mod controller;
pub mod drive;
pub mod kickstart;
pub mod report;
pub mod speed;
