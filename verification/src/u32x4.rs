//! Four unsigned 32-bit lanes, used as a per-lane boolean mask.
//!
//! Comparison operations produce masks whose lanes are all-bits-one
//! ("true") or all-bits-zero ("false"); nothing else. The fields are
//! public, so a hand-built value can break that shape — `is_mask` says
//! when a value keeps it, and every comparison's contract promises it.

use vstd::prelude::*;

verus! {

/// A packed vector of four unsigned 32-bit lanes.
#[derive(Clone, Copy, Debug, PartialEq, Eq, Structural)]
pub struct U32x4 {
    pub x: u32,
    pub y: u32,
    pub z: u32,
    pub w: u32,
}

/// The mask lane encoding a boolean: all-bits-one for true, zero for false.
pub open spec fn mask_lane(b: bool) -> u32 {
    if b {
        0xffff_ffff
    } else {
        0
    }
}

impl U32x4 {
    /// The lanes in order.
    pub open spec fn lanes(self) -> Seq<u32> {
        seq![self.x, self.y, self.z, self.w]
    }

    /// Every lane is all-bits-one or all-bits-zero: the shape comparison
    /// results keep.
    pub open spec fn is_mask(self) -> bool {
        forall|i: int| 0 <= i < 4 ==> self.lanes()[i] == 0xffff_ffff || self.lanes()[i] == 0
    }

    /// A vector with the given lanes, in order.
    pub fn new(x: u32, y: u32, z: u32, w: u32) -> (r: U32x4)
        ensures
            r == (U32x4 { x, y, z, w }),
    {
        U32x4 { x, y, z, w }
    }

    /// True iff every lane is all-bits-one: collapses a per-lane
    /// comparison mask into "all four pairs compared equal".
    pub fn is_all_ones(&self) -> (r: bool)
        ensures
            r == (self.lanes()[0] == 0xffff_ffff && self.lanes()[1] == 0xffff_ffff && self.lanes()[2]
                == 0xffff_ffff && self.lanes()[3] == 0xffff_ffff),
    {
        self.x == 0xffff_ffff && self.y == 0xffff_ffff && self.z == 0xffff_ffff && self.w
            == 0xffff_ffff
    }

    /// The lane at `index`. An index outside the four lanes is a contract
    /// violation and is excluded outright.
    pub fn get(&self, index: usize) -> (r: u32)
        requires
            index < 4,
        ensures
            r == self.lanes()[index as int],
    {
        if index == 0 {
            self.x
        } else if index == 1 {
            self.y
        } else if index == 2 {
            self.z
        } else {
            self.w
        }
    }
}

} // verus!
