//! Sixteen unsigned byte lanes.

use crate::bits::from_le_bytes_32;
use crate::bits::from_le_bytes_32_exec;
use crate::bits::lemma_from_le_bytes_32_layout;
use crate::bits::lemma_signed_of_bits_round_trip;
use crate::bits::to_signed_32;
use crate::bits::to_signed_32_exec;
use crate::i32x4::I32x4;
use vstd::prelude::*;

verus! {

broadcast use vstd::array::group_array_axioms;

/// A packed vector of sixteen unsigned 8-bit lanes.
#[derive(Clone, Copy, Debug, PartialEq, Eq)]
pub struct U8x16 {
    pub lanes: [u8; 16],
}

/// A byte's low four bits stay below the lane count.
proof fn lemma_low_nibble_bound(t: u8)
    ensures
        t & 0xf < 16,
{
    assert(t & 0xf < 16) by (bit_vector);
}

/// Masking to the low four bits leaves an in-range lane index unchanged.
proof fn lemma_low_nibble_identity(t: u8)
    requires
        t < 16,
    ensures
        t & 0xf == t,
{
    assert(t < 16 ==> t & 0xf == t) by (bit_vector);
}

impl U8x16 {
    /// The 16 bytes of the vector: the byte lanes themselves.
    pub open spec fn bytes(self) -> Seq<u8> {
        self.lanes@
    }

    /// The table-driven gather: lane `i` of the result is the lane of
    /// `self` picked by the low four bits of `table`'s lane `i`.
    pub open spec fn shuffled(self, table: U8x16) -> Seq<u8> {
        Seq::new(16, |i: int| self.lanes@[(table.lanes@[i] & 0xf) as int])
    }

    /// The signed vector holding this vector's 16 bytes unchanged,
    /// little-endian within each 32-bit lane.
    pub open spec fn spec_as_i32x4(self) -> I32x4 {
        I32x4 {
            x: to_signed_32(from_le_bytes_32(self.lanes@[0], self.lanes@[1], self.lanes@[2], self.lanes@[3])),
            y: to_signed_32(from_le_bytes_32(self.lanes@[4], self.lanes@[5], self.lanes@[6], self.lanes@[7])),
            z: to_signed_32(from_le_bytes_32(self.lanes@[8], self.lanes@[9], self.lanes@[10], self.lanes@[11])),
            w: to_signed_32(from_le_bytes_32(self.lanes@[12], self.lanes@[13], self.lanes@[14], self.lanes@[15])),
        }
    }

    /// A vector with the given byte lanes, in order.
    pub fn new(lanes: [u8; 16]) -> (r: U8x16)
        ensures
            r == (U8x16 { lanes }),
    {
        U8x16 { lanes }
    }

    /// Reinterprets the vector's 128 bits as four signed 32-bit lanes. A
    /// pure bit-reinterpretation: the 16 bytes are unchanged.
    pub fn as_i32x4(self) -> (r: I32x4)
        ensures
            r == self.spec_as_i32x4(),
            r.bytes() =~= self.bytes(),
    {
        let x = to_signed_32_exec(
            from_le_bytes_32_exec(self.lanes[0], self.lanes[1], self.lanes[2], self.lanes[3]),
        );
        let y = to_signed_32_exec(
            from_le_bytes_32_exec(self.lanes[4], self.lanes[5], self.lanes[6], self.lanes[7]),
        );
        let z = to_signed_32_exec(
            from_le_bytes_32_exec(self.lanes[8], self.lanes[9], self.lanes[10], self.lanes[11]),
        );
        let w = to_signed_32_exec(
            from_le_bytes_32_exec(self.lanes[12], self.lanes[13], self.lanes[14], self.lanes[15]),
        );
        let r = I32x4 { x, y, z, w };
        proof {
            lemma_signed_of_bits_round_trip(from_le_bytes_32(self.lanes@[0], self.lanes@[1], self.lanes@[2], self.lanes@[3]));
            lemma_signed_of_bits_round_trip(from_le_bytes_32(self.lanes@[4], self.lanes@[5], self.lanes@[6], self.lanes@[7]));
            lemma_signed_of_bits_round_trip(from_le_bytes_32(self.lanes@[8], self.lanes@[9], self.lanes@[10], self.lanes@[11]));
            lemma_signed_of_bits_round_trip(from_le_bytes_32(self.lanes@[12], self.lanes@[13], self.lanes@[14], self.lanes@[15]));
            lemma_from_le_bytes_32_layout(self.lanes@[0], self.lanes@[1], self.lanes@[2], self.lanes@[3]);
            lemma_from_le_bytes_32_layout(self.lanes@[4], self.lanes@[5], self.lanes@[6], self.lanes@[7]);
            lemma_from_le_bytes_32_layout(self.lanes@[8], self.lanes@[9], self.lanes@[10], self.lanes@[11]);
            lemma_from_le_bytes_32_layout(self.lanes@[12], self.lanes@[13], self.lanes@[14], self.lanes@[15]);
        }
        r
    }

    /// The table-driven byte gather, matching hardware byte-shuffle
    /// instructions: lane `i` of the result is `self`'s lane at the index
    /// given by the low four bits of `table`'s lane `i`.
    pub fn shuffle(self, table: U8x16) -> (r: U8x16)
        ensures
            r.lanes@ =~= self.shuffled(table),
            forall|i: int|
                0 <= i < 16 ==> r.lanes@[i] == self.lanes@[(table.lanes@[i] & 0xf) as int],
    {
        let i0: usize = (table.lanes[0] & 0xf) as usize;
        let i1: usize = (table.lanes[1] & 0xf) as usize;
        let i2: usize = (table.lanes[2] & 0xf) as usize;
        let i3: usize = (table.lanes[3] & 0xf) as usize;
        let i4: usize = (table.lanes[4] & 0xf) as usize;
        let i5: usize = (table.lanes[5] & 0xf) as usize;
        let i6: usize = (table.lanes[6] & 0xf) as usize;
        let i7: usize = (table.lanes[7] & 0xf) as usize;
        let i8: usize = (table.lanes[8] & 0xf) as usize;
        let i9: usize = (table.lanes[9] & 0xf) as usize;
        let i10: usize = (table.lanes[10] & 0xf) as usize;
        let i11: usize = (table.lanes[11] & 0xf) as usize;
        let i12: usize = (table.lanes[12] & 0xf) as usize;
        let i13: usize = (table.lanes[13] & 0xf) as usize;
        let i14: usize = (table.lanes[14] & 0xf) as usize;
        let i15: usize = (table.lanes[15] & 0xf) as usize;
        proof {
            lemma_low_nibble_bound(table.lanes@[0]);
            lemma_low_nibble_bound(table.lanes@[1]);
            lemma_low_nibble_bound(table.lanes@[2]);
            lemma_low_nibble_bound(table.lanes@[3]);
            lemma_low_nibble_bound(table.lanes@[4]);
            lemma_low_nibble_bound(table.lanes@[5]);
            lemma_low_nibble_bound(table.lanes@[6]);
            lemma_low_nibble_bound(table.lanes@[7]);
            lemma_low_nibble_bound(table.lanes@[8]);
            lemma_low_nibble_bound(table.lanes@[9]);
            lemma_low_nibble_bound(table.lanes@[10]);
            lemma_low_nibble_bound(table.lanes@[11]);
            lemma_low_nibble_bound(table.lanes@[12]);
            lemma_low_nibble_bound(table.lanes@[13]);
            lemma_low_nibble_bound(table.lanes@[14]);
            lemma_low_nibble_bound(table.lanes@[15]);
        }
        U8x16 {
            lanes: [
                self.lanes[i0],
                self.lanes[i1],
                self.lanes[i2],
                self.lanes[i3],
                self.lanes[i4],
                self.lanes[i5],
                self.lanes[i6],
                self.lanes[i7],
                self.lanes[i8],
                self.lanes[i9],
                self.lanes[i10],
                self.lanes[i11],
                self.lanes[i12],
                self.lanes[i13],
                self.lanes[i14],
                self.lanes[i15],
            ],
        }
    }

    /// The lane at `index`. An index outside the sixteen lanes is a
    /// contract violation and is excluded outright.
    pub fn get(&self, index: usize) -> (r: u8)
        requires
            index < 16,
        ensures
            r == self.lanes@[index as int],
    {
        self.lanes[index]
    }
}

/// The table-driven gather on a table whose lanes all lie below the
/// lane count: lane `i` of the shuffle is `self`'s lane at exactly
/// `table`'s lane `i`, with no masking left to see.
pub proof fn lemma_shuffle_gathers(v: U8x16, table: U8x16)
    requires
        forall|i: int| 0 <= i < 16 ==> table.lanes@[i] < 16,
    ensures
        forall|i: int| 0 <= i < 16 ==> v.shuffled(table)[i] == v.lanes@[table.lanes@[i] as int],
{
    assert forall|i: int| 0 <= i < 16 implies v.shuffled(table)[i] == v.lanes@[table.lanes@[i] as int] by {
        lemma_low_nibble_identity(table.lanes@[i]);
    }
}

/// Reading the sixteen bytes as four signed lanes and reinterpreting
/// those back as bytes reproduces the original vector bit for bit.
pub proof fn lemma_as_i32x4_round_trip(b: U8x16)
    ensures
        b.spec_as_i32x4().spec_as_u8x16() == b,
{
    lemma_signed_of_bits_round_trip(from_le_bytes_32(b.lanes@[0], b.lanes@[1], b.lanes@[2], b.lanes@[3]));
    lemma_signed_of_bits_round_trip(from_le_bytes_32(b.lanes@[4], b.lanes@[5], b.lanes@[6], b.lanes@[7]));
    lemma_signed_of_bits_round_trip(from_le_bytes_32(b.lanes@[8], b.lanes@[9], b.lanes@[10], b.lanes@[11]));
    lemma_signed_of_bits_round_trip(from_le_bytes_32(b.lanes@[12], b.lanes@[13], b.lanes@[14], b.lanes@[15]));
    lemma_from_le_bytes_32_layout(b.lanes@[0], b.lanes@[1], b.lanes@[2], b.lanes@[3]);
    lemma_from_le_bytes_32_layout(b.lanes@[4], b.lanes@[5], b.lanes@[6], b.lanes@[7]);
    lemma_from_le_bytes_32_layout(b.lanes@[8], b.lanes@[9], b.lanes@[10], b.lanes@[11]);
    lemma_from_le_bytes_32_layout(b.lanes@[12], b.lanes@[13], b.lanes@[14], b.lanes@[15]);
    assert(b.spec_as_i32x4().spec_as_u8x16().lanes =~= b.lanes);
}

} // verus!
