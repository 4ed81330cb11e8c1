//! Four 32-bit float lanes, carried as raw IEEE-754 bit patterns.
//!
//! Every operation here is bit-exact: lane permutations, the lane-wise
//! zip, bit-reinterpretation to the other 128-bit shapes, the IEEE-754
//! comparison mask, and the NaN-aware minimum and maximum, all stated
//! over the lane bit patterns. Decoding the patterns to numeric values
//! and arithmetic on those values is the callers' business.

use crate::bits::f32_eq;
use crate::bits::f32_max_bits;
use crate::bits::f32_min_bits;
use crate::bits::f32_lane_eq;
use crate::bits::f32_lane_max;
use crate::bits::f32_lane_min;
use crate::bits::le_bytes_32;
use crate::bits::lemma_pack_64_bytes;
use crate::bits::lemma_pack_64_halves;
use crate::bits::lemma_signed_of_bits_round_trip;
use crate::bits::pack_64;
use crate::bits::pack_64_exec;
use crate::bits::to_signed_32;
use crate::bits::to_signed_32_exec;
use crate::f64x2::F64x2;
use crate::i32x4::I32x4;
use crate::u32x4::mask_lane;
use crate::u32x4::U32x4;
use vstd::prelude::*;

verus! {

/// A packed vector of four 32-bit float lanes, each held as its raw
/// IEEE-754 bit pattern.
#[derive(Clone, Copy, Debug, PartialEq, Eq, Structural)]
pub struct F32x4 {
    pub x: u32,
    pub y: u32,
    pub z: u32,
    pub w: u32,
}

impl F32x4 {
    /// The lanes in order, as bit patterns.
    pub open spec fn lanes(self) -> Seq<u32> {
        seq![self.x, self.y, self.z, self.w]
    }

    /// The 16 bytes of the vector, little-endian within each lane,
    /// lowest lane first: the layout bit-reinterpretation preserves.
    pub open spec fn bytes(self) -> Seq<u8> {
        le_bytes_32(self.x) + le_bytes_32(self.y) + le_bytes_32(self.z) + le_bytes_32(self.w)
    }

    /// The two-lane vector holding this vector's 128 bits unchanged:
    /// adjacent 32-bit lanes pair into 64-bit lanes, low lane first.
    pub open spec fn spec_as_f64x2(self) -> F64x2 {
        F64x2 { x: pack_64(self.x, self.y), y: pack_64(self.z, self.w) }
    }

    /// The signed vector holding this vector's 128 bits unchanged: each
    /// lane's bits read as a two's-complement integer.
    pub open spec fn spec_to_i32x4(self) -> I32x4 {
        I32x4 {
            x: to_signed_32(self.x),
            y: to_signed_32(self.y),
            z: to_signed_32(self.z),
            w: to_signed_32(self.w),
        }
    }

    /// A vector with the given lane bit patterns, in order.
    pub fn new(x: u32, y: u32, z: u32, w: u32) -> (r: F32x4)
        ensures
            r == (F32x4 { x, y, z, w }),
    {
        F32x4 { x, y, z, w }
    }

    /// A vector with all four lanes equal to `v`.
    pub fn splat(v: u32) -> (r: F32x4)
        ensures
            r == (F32x4 { x: v, y: v, z: v, w: v }),
    {
        F32x4 { x: v, y: v, z: v, w: v }
    }

    /// Elementwise IEEE-754 minimum with minNum semantics: a lane where
    /// exactly one operand is NaN takes the other operand's value.
    pub fn min(self, other: F32x4) -> (r: F32x4)
        ensures
            r == (F32x4 {
                x: f32_min_bits(self.x, other.x),
                y: f32_min_bits(self.y, other.y),
                z: f32_min_bits(self.z, other.z),
                w: f32_min_bits(self.w, other.w),
            }),
    {
        F32x4 {
            x: f32_lane_min(self.x, other.x),
            y: f32_lane_min(self.y, other.y),
            z: f32_lane_min(self.z, other.z),
            w: f32_lane_min(self.w, other.w),
        }
    }

    /// Elementwise IEEE-754 maximum with maxNum semantics: a lane where
    /// exactly one operand is NaN takes the other operand's value.
    pub fn max(self, other: F32x4) -> (r: F32x4)
        ensures
            r == (F32x4 {
                x: f32_max_bits(self.x, other.x),
                y: f32_max_bits(self.y, other.y),
                z: f32_max_bits(self.z, other.z),
                w: f32_max_bits(self.w, other.w),
            }),
    {
        F32x4 {
            x: f32_lane_max(self.x, other.x),
            y: f32_lane_max(self.y, other.y),
            z: f32_lane_max(self.z, other.z),
            w: f32_lane_max(self.w, other.w),
        }
    }

    /// The per-lane IEEE-754 equality mask: all-bits-one where the lanes
    /// compare equal, all-bits-zero where they do not. A NaN lane
    /// compares unequal to everything, itself included; the two zero
    /// encodings compare equal.
    pub fn packed_eq(self, other: F32x4) -> (r: U32x4)
        ensures
            r == (U32x4 {
                x: mask_lane(f32_eq(self.x, other.x)),
                y: mask_lane(f32_eq(self.y, other.y)),
                z: mask_lane(f32_eq(self.z, other.z)),
                w: mask_lane(f32_eq(self.w, other.w)),
            }),
            r.is_mask(),
    {
        U32x4 {
            x: if f32_lane_eq(self.x, other.x) {
                0xffff_ffff
            } else {
                0
            },
            y: if f32_lane_eq(self.y, other.y) {
                0xffff_ffff
            } else {
                0
            },
            z: if f32_lane_eq(self.z, other.z) {
                0xffff_ffff
            } else {
                0
            },
            w: if f32_lane_eq(self.w, other.w) {
                0xffff_ffff
            } else {
                0
            },
        }
    }

    /// Reinterprets the vector's 128 bits as two 64-bit float lanes. A
    /// pure bit-reinterpretation: the 16 bytes are unchanged, and no
    /// numeric conversion happens.
    pub fn as_f64x2(self) -> (r: F64x2)
        ensures
            r == self.spec_as_f64x2(),
            r.bytes() =~= self.bytes(),
    {
        let r = F64x2 { x: pack_64_exec(self.x, self.y), y: pack_64_exec(self.z, self.w) };
        proof {
            lemma_pack_64_bytes(self.x, self.y);
            lemma_pack_64_bytes(self.z, self.w);
        }
        r
    }

    /// Reinterprets the vector's 128 bits as four signed integer lanes.
    /// A pure bit-reinterpretation: the 16 bytes are unchanged, and no
    /// numeric conversion happens.
    pub fn to_i32x4(self) -> (r: I32x4)
        ensures
            r == self.spec_to_i32x4(),
            r.bytes() =~= self.bytes(),
    {
        let r = I32x4 {
            x: to_signed_32_exec(self.x),
            y: to_signed_32_exec(self.y),
            z: to_signed_32_exec(self.z),
            w: to_signed_32_exec(self.w),
        };
        proof {
            lemma_signed_of_bits_round_trip(self.x);
            lemma_signed_of_bits_round_trip(self.y);
            lemma_signed_of_bits_round_trip(self.z);
            lemma_signed_of_bits_round_trip(self.w);
        }
        r
    }

    /// The fixed permutation `0,0,1,1`.
    pub fn xxyy(self) -> (r: F32x4)
        ensures
            r == (F32x4 { x: self.x, y: self.x, z: self.y, w: self.y }),
    {
        F32x4 { x: self.x, y: self.x, z: self.y, w: self.y }
    }

    /// The fixed permutation `0,1,0,1`.
    pub fn xyxy(self) -> (r: F32x4)
        ensures
            r == (F32x4 { x: self.x, y: self.y, z: self.x, w: self.y }),
    {
        F32x4 { x: self.x, y: self.y, z: self.x, w: self.y }
    }

    /// The fixed permutation `0,1,1,0`.
    pub fn xyyx(self) -> (r: F32x4)
        ensures
            r == (F32x4 { x: self.x, y: self.y, z: self.y, w: self.x }),
    {
        F32x4 { x: self.x, y: self.y, z: self.y, w: self.x }
    }

    /// The fixed permutation `0,2,0,2`.
    pub fn xzxz(self) -> (r: F32x4)
        ensures
            r == (F32x4 { x: self.x, y: self.z, z: self.x, w: self.z }),
    {
        F32x4 { x: self.x, y: self.z, z: self.x, w: self.z }
    }

    /// The fixed permutation `1,3,1,3`.
    pub fn ywyw(self) -> (r: F32x4)
        ensures
            r == (F32x4 { x: self.y, y: self.w, z: self.y, w: self.w }),
    {
        F32x4 { x: self.y, y: self.w, z: self.y, w: self.w }
    }

    /// The fixed permutation `2,2,3,3`.
    pub fn zzww(self) -> (r: F32x4)
        ensures
            r == (F32x4 { x: self.z, y: self.z, z: self.w, w: self.w }),
    {
        F32x4 { x: self.z, y: self.z, z: self.w, w: self.w }
    }

    /// The fixed permutation `2,3,0,1`: the two halves swapped.
    pub fn zwxy(self) -> (r: F32x4)
        ensures
            r == (F32x4 { x: self.z, y: self.w, z: self.x, w: self.y }),
    {
        F32x4 { x: self.z, y: self.w, z: self.x, w: self.y }
    }

    /// The fixed permutation `2,3,2,3`.
    pub fn zwzw(self) -> (r: F32x4)
        ensures
            r == (F32x4 { x: self.z, y: self.w, z: self.z, w: self.w }),
    {
        F32x4 { x: self.z, y: self.w, z: self.z, w: self.w }
    }

    /// The fixed permutation `3,0,1,2`: a rotation by one lane.
    pub fn wxyz(self) -> (r: F32x4)
        ensures
            r == (F32x4 { x: self.w, y: self.x, z: self.y, w: self.z }),
    {
        F32x4 { x: self.w, y: self.x, z: self.y, w: self.z }
    }

    /// The lane-wise zip of two vectors, split across the low and high
    /// halves: `(a0,b0,a1,b1)` and `(a2,b2,a3,b3)`.
    pub fn interleave(self, other: F32x4) -> (r: (F32x4, F32x4))
        ensures
            r.0 == (F32x4 { x: self.x, y: other.x, z: self.y, w: other.y }),
            r.1 == (F32x4 { x: self.z, y: other.z, z: self.w, w: other.w }),
    {
        (
            F32x4 { x: self.x, y: other.x, z: self.y, w: other.y },
            F32x4 { x: self.z, y: other.z, z: self.w, w: other.w },
        )
    }

    /// The lane bit pattern at `index`. An index outside the four lanes
    /// is a contract violation and is excluded outright.
    pub fn get(&self, index: usize) -> (r: u32)
        requires
            index < 4,
        ensures
            r == self.lanes()[index as int],
    {
        if index == 0 {
            self.x
        } else if index == 1 {
            self.y
        } else if index == 2 {
            self.z
        } else {
            self.w
        }
    }

    /// Replaces the lane at `index`, leaving the other lanes unchanged.
    /// An index outside the four lanes is a contract violation and is
    /// excluded outright.
    pub fn set(&mut self, index: usize, value: u32)
        requires
            index < 4,
        ensures
            final(self).lanes() =~= old(self).lanes().update(index as int, value),
    {
        if index == 0 {
            self.x = value;
        } else if index == 1 {
            self.y = value;
        } else if index == 2 {
            self.z = value;
        } else {
            self.w = value;
        }
    }
}

/// Pairing the four 32-bit lanes into two 64-bit lanes and splitting
/// them again reproduces the original vector bit for bit — for every
/// vector, NaN and infinity bit patterns included.
pub proof fn lemma_as_f64x2_round_trip(v: F32x4)
    ensures
        v.spec_as_f64x2().spec_as_f32x4() == v,
{
    lemma_pack_64_halves(v.x, v.y);
    lemma_pack_64_halves(v.z, v.w);
}

/// Reading the lanes as signed integers and taking their bit patterns
/// back reproduces the original vector bit for bit.
pub proof fn lemma_to_i32x4_round_trip(v: F32x4)
    ensures
        v.spec_to_i32x4() == (I32x4 {
            x: to_signed_32(v.x),
            y: to_signed_32(v.y),
            z: to_signed_32(v.z),
            w: to_signed_32(v.w),
        }),
        v.spec_to_i32x4().bytes() =~= v.bytes(),
{
    lemma_signed_of_bits_round_trip(v.x);
    lemma_signed_of_bits_round_trip(v.y);
    lemma_signed_of_bits_round_trip(v.z);
    lemma_signed_of_bits_round_trip(v.w);
}

} // verus!
