//! Four signed 32-bit integer lanes.

use crate::bits::le_bytes_32;
use crate::bits::lemma_bits_of_signed_round_trip;
use crate::bits::lemma_le_bytes_32_round_trip;
use crate::bits::le_bytes_32_exec;
use crate::bits::to_bits_32;
use crate::bits::to_bits_32_exec;
use crate::u8x16::U8x16;
use vstd::prelude::*;

verus! {

/// A packed vector of four signed 32-bit integer lanes.
#[derive(Clone, Copy, Debug, PartialEq, Eq, Structural)]
pub struct I32x4 {
    pub x: i32,
    pub y: i32,
    pub z: i32,
    pub w: i32,
}

/// The smaller of two signed lanes.
pub open spec fn min_i32(a: i32, b: i32) -> i32 {
    if a <= b {
        a
    } else {
        b
    }
}

/// Elementwise subtraction wraps around the 32-bit two's-complement
/// range, as fixed-width integer subtraction conventionally does.
pub open spec fn wrap_sub_32(a: i32, b: i32) -> i32 {
    if a - b > i32::MAX {
        (a - b - 0x1_0000_0000) as i32
    } else if a - b < i32::MIN {
        (a - b + 0x1_0000_0000) as i32
    } else {
        (a - b) as i32
    }
}

impl I32x4 {
    /// The lanes in order.
    pub open spec fn lanes(self) -> Seq<i32> {
        seq![self.x, self.y, self.z, self.w]
    }

    /// The 16 bytes of the vector, little-endian within each lane,
    /// lowest lane first: the layout bit-reinterpretation preserves.
    pub open spec fn bytes(self) -> Seq<u8> {
        le_bytes_32(to_bits_32(self.x)) + le_bytes_32(to_bits_32(self.y)) + le_bytes_32(
            to_bits_32(self.z),
        ) + le_bytes_32(to_bits_32(self.w))
    }

    /// The byte vector holding this vector's 16 bytes unchanged.
    pub open spec fn spec_as_u8x16(self) -> U8x16 {
        U8x16 {
            lanes: [
                le_bytes_32(to_bits_32(self.x))[0],
                le_bytes_32(to_bits_32(self.x))[1],
                le_bytes_32(to_bits_32(self.x))[2],
                le_bytes_32(to_bits_32(self.x))[3],
                le_bytes_32(to_bits_32(self.y))[0],
                le_bytes_32(to_bits_32(self.y))[1],
                le_bytes_32(to_bits_32(self.y))[2],
                le_bytes_32(to_bits_32(self.y))[3],
                le_bytes_32(to_bits_32(self.z))[0],
                le_bytes_32(to_bits_32(self.z))[1],
                le_bytes_32(to_bits_32(self.z))[2],
                le_bytes_32(to_bits_32(self.z))[3],
                le_bytes_32(to_bits_32(self.w))[0],
                le_bytes_32(to_bits_32(self.w))[1],
                le_bytes_32(to_bits_32(self.w))[2],
                le_bytes_32(to_bits_32(self.w))[3],
            ],
        }
    }

    /// A vector with the given lanes, in order.
    pub fn new(x: i32, y: i32, z: i32, w: i32) -> (r: I32x4)
        ensures
            r == (I32x4 { x, y, z, w }),
    {
        I32x4 { x, y, z, w }
    }

    /// A vector with all four lanes equal to `v`.
    pub fn splat(v: i32) -> (r: I32x4)
        ensures
            r == (I32x4 { x: v, y: v, z: v, w: v }),
    {
        I32x4 { x: v, y: v, z: v, w: v }
    }

    /// Elementwise signed minimum.
    pub fn min(self, other: I32x4) -> (r: I32x4)
        ensures
            r == (I32x4 {
                x: min_i32(self.x, other.x),
                y: min_i32(self.y, other.y),
                z: min_i32(self.z, other.z),
                w: min_i32(self.w, other.w),
            }),
    {
        I32x4 {
            x: if self.x <= other.x {
                self.x
            } else {
                other.x
            },
            y: if self.y <= other.y {
                self.y
            } else {
                other.y
            },
            z: if self.z <= other.z {
                self.z
            } else {
                other.z
            },
            w: if self.w <= other.w {
                self.w
            } else {
                other.w
            },
        }
    }

    /// Elementwise subtraction, wrapping around the 32-bit range.
    pub fn wrapping_sub(self, other: I32x4) -> (r: I32x4)
        ensures
            r == (I32x4 {
                x: wrap_sub_32(self.x, other.x),
                y: wrap_sub_32(self.y, other.y),
                z: wrap_sub_32(self.z, other.z),
                w: wrap_sub_32(self.w, other.w),
            }),
    {
        I32x4 {
            x: self.x.wrapping_sub(other.x),
            y: self.y.wrapping_sub(other.y),
            z: self.z.wrapping_sub(other.z),
            w: self.w.wrapping_sub(other.w),
        }
    }

    /// Reinterprets the vector's 128 bits as sixteen byte lanes. A pure
    /// bit-reinterpretation: the 16 bytes are unchanged.
    pub fn as_u8x16(self) -> (r: U8x16)
        ensures
            r == self.spec_as_u8x16(),
            r.bytes() =~= self.bytes(),
    {
        let (b0, b1, b2, b3) = le_bytes_32_exec(to_bits_32_exec(self.x));
        let (b4, b5, b6, b7) = le_bytes_32_exec(to_bits_32_exec(self.y));
        let (b8, b9, b10, b11) = le_bytes_32_exec(to_bits_32_exec(self.z));
        let (b12, b13, b14, b15) = le_bytes_32_exec(to_bits_32_exec(self.w));
        let r = U8x16 {
            lanes: [b0, b1, b2, b3, b4, b5, b6, b7, b8, b9, b10, b11, b12, b13, b14, b15],
        };
        proof {
            assert(r.lanes@ =~= self.spec_as_u8x16().lanes@);
            assert(r == self.spec_as_u8x16());
        }
        r
    }

    /// The lane at `index`. An index outside the four lanes is a contract
    /// violation and is excluded outright.
    pub fn get(&self, index: usize) -> (r: i32)
        requires
            index < 4,
        ensures
            r == self.lanes()[index as int],
    {
        if index == 0 {
            self.x
        } else if index == 1 {
            self.y
        } else if index == 2 {
            self.z
        } else {
            self.w
        }
    }
}

/// Reinterpreting the four signed lanes as sixteen bytes and reading
/// those back as signed lanes reproduces the original vector bit for
/// bit.
pub proof fn lemma_as_u8x16_round_trip(v: I32x4)
    ensures
        v.spec_as_u8x16().spec_as_i32x4() == v,
{
    lemma_le_bytes_32_round_trip(to_bits_32(v.x));
    lemma_le_bytes_32_round_trip(to_bits_32(v.y));
    lemma_le_bytes_32_round_trip(to_bits_32(v.z));
    lemma_le_bytes_32_round_trip(to_bits_32(v.w));
    lemma_bits_of_signed_round_trip(v.x);
    lemma_bits_of_signed_round_trip(v.y);
    lemma_bits_of_signed_round_trip(v.z);
    lemma_bits_of_signed_round_trip(v.w);
}

} // verus!
