//! Which wheel a board drives.
//!
//! Up to three boards sit on one host, one per axis. Two identification pins
//! with pull-ups tell a board which axis is its own, and the board reports
//! the axis in its USB serial number.

use vstd::prelude::*;

verus! {

/// The axis of a reaction wheel.
#[derive(Clone, Copy, Debug, PartialEq, Eq, Structural)]
pub enum Axis {
    X,
    Y,
    Z,
}

impl Axis {
    /// The axis that the identification pins select. Both pins left high
    /// select X, the first pin pulled low selects Y, the second pin pulled
    /// low selects Z. Both pulled low select nothing.
    pub open spec fn selected(id0_high: bool, id1_high: bool) -> Option<Axis> {
        if id0_high && id1_high {
            Some(Axis::X)
        } else if id1_high {
            Some(Axis::Y)
        } else if id0_high {
            Some(Axis::Z)
        } else {
            None
        }
    }

    /// The serial number under which the board of this axis enumerates.
    pub open spec fn serial(self) -> Seq<char> {
        match self {
            Axis::X => "RW-X"@,
            Axis::Y => "RW-Y"@,
            Axis::Z => "RW-Z"@,
        }
    }

    /// Reads the axis off the levels of the two identification pins.
    pub fn from_id_pins(id0_high: bool, id1_high: bool) -> (axis: Option<Axis>)
        ensures
            axis == Axis::selected(id0_high, id1_high),
    {
        if id0_high && id1_high {
            Some(Axis::X)
        } else if id1_high {
            Some(Axis::Y)
        } else if id0_high {
            Some(Axis::Z)
        } else {
            None
        }
    }

    /// The serial number under which the board of this axis enumerates.
    pub fn serial_number(&self) -> (serial: &'static str)
        ensures
            serial@ == self.serial(),
    {
        match self {
            Axis::X => "RW-X",
            Axis::Y => "RW-Y",
            Axis::Z => "RW-Z",
        }
    }
}

/// Each axis has a serial number of its own, so the host can tell the boards
/// apart.
pub proof fn lemma_serials_distinct(a: Axis, b: Axis)
    requires
        a != b,
    ensures
        a.serial() != b.serial(),
{
    reveal_strlit("RW-X");
    reveal_strlit("RW-Y");
    reveal_strlit("RW-Z");
    assert(a.serial().len() == 4 && b.serial().len() == 4);
    assert(a.serial()[3] != b.serial()[3]);
}

/// Every setting of the pins but both low selects an axis, and no two
/// settings select the same one.
pub proof fn lemma_pins_select_one_axis(id0_high: bool, id1_high: bool)
    ensures
        Axis::selected(id0_high, id1_high) is None <==> !id0_high && !id1_high,
        forall|other0: bool, other1: bool|
            Axis::selected(id0_high, id1_high) is Some && #[trigger] Axis::selected(other0, other1)
                == Axis::selected(id0_high, id1_high) ==> other0 == id0_high && other1 == id1_high,
{
}

} // verus!
