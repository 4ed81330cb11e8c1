//! Two 64-bit float lanes, carried as raw IEEE-754 bit patterns.

use crate::bits::high_32;
use crate::bits::le_bytes_64;
use crate::bits::lemma_pack_64_bytes;
use crate::bits::lemma_split_64_packs;
use crate::bits::low_32;
use crate::bits::split_64;
use crate::f32x4::F32x4;
use vstd::prelude::*;

verus! {

/// A packed vector of two 64-bit float lanes, each held as its raw
/// IEEE-754 bit pattern.
#[derive(Clone, Copy, Debug, PartialEq, Eq, Structural)]
pub struct F64x2 {
    pub x: u64,
    pub y: u64,
}

impl F64x2 {
    /// The lanes in order, as bit patterns.
    pub open spec fn lanes(self) -> Seq<u64> {
        seq![self.x, self.y]
    }

    /// The 16 bytes of the vector, little-endian within each lane,
    /// lowest lane first: the layout bit-reinterpretation preserves.
    pub open spec fn bytes(self) -> Seq<u8> {
        le_bytes_64(self.x) + le_bytes_64(self.y)
    }

    /// The four-lane vector holding this vector's 128 bits unchanged:
    /// each 64-bit lane splits into its low and high 32-bit halves.
    pub open spec fn spec_as_f32x4(self) -> F32x4 {
        F32x4 {
            x: low_32(self.x),
            y: high_32(self.x),
            z: low_32(self.y),
            w: high_32(self.y),
        }
    }

    /// A vector with the given lane bit patterns, in order.
    pub fn new(x: u64, y: u64) -> (r: F64x2)
        ensures
            r == (F64x2 { x, y }),
    {
        F64x2 { x, y }
    }

    /// The lane-wise zip of two vectors: pairs the first lanes, then the
    /// second lanes.
    pub fn interleave(self, other: F64x2) -> (r: (F64x2, F64x2))
        ensures
            r.0 == (F64x2 { x: self.x, y: other.x }),
            r.1 == (F64x2 { x: self.y, y: other.y }),
    {
        (F64x2 { x: self.x, y: other.x }, F64x2 { x: self.y, y: other.y })
    }

    /// The vector `<self[0], other[1]>`.
    pub fn combine_low_high(self, other: F64x2) -> (r: F64x2)
        ensures
            r == (F64x2 { x: self.x, y: other.y }),
    {
        F64x2 { x: self.x, y: other.y }
    }

    /// Reinterprets the vector's 128 bits as four 32-bit float lanes. A
    /// pure bit-reinterpretation: the 16 bytes are unchanged, and no
    /// numeric conversion happens.
    pub fn as_f32x4(self) -> (r: F32x4)
        ensures
            r == self.spec_as_f32x4(),
            r.bytes() =~= self.bytes(),
    {
        let (x, y) = split_64(self.x);
        let (z, w) = split_64(self.y);
        let r = F32x4 { x, y, z, w };
        proof {
            lemma_split_64_packs(self.x);
            lemma_split_64_packs(self.y);
            lemma_pack_64_bytes(r.x, r.y);
            lemma_pack_64_bytes(r.z, r.w);
        }
        r
    }

    /// The lane bit pattern at `index`. An index outside the two lanes is
    /// a contract violation and is excluded outright.
    pub fn get(&self, index: usize) -> (r: u64)
        requires
            index < 2,
        ensures
            r == self.lanes()[index as int],
    {
        if index == 0 {
            self.x
        } else {
            self.y
        }
    }
}

/// Splitting a two-lane vector into four 32-bit lanes and reading those
/// back as two 64-bit lanes reproduces the original bit for bit.
pub proof fn lemma_as_f32x4_round_trip(v: F64x2)
    ensures
        v.spec_as_f32x4().spec_as_f64x2() == v,
{
    lemma_split_64_packs(v.x);
    lemma_split_64_packs(v.y);
}

} // verus!
