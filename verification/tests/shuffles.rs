//! Fixed lane permutations, the lane-wise zip, and the table-driven
//! byte gather.

use simd::F32x4;
use simd::F64x2;
use simd::U8x16;

fn f(a: f32, b: f32, c: f32, d: f32) -> F32x4 {
    F32x4::new(a.to_bits(), b.to_bits(), c.to_bits(), d.to_bits())
}

#[test]
fn shuffle_xyxy_example() {
    assert_eq!(f(1.0, 2.0, 3.0, 4.0).xyxy(), f(1.0, 2.0, 1.0, 2.0));
}

#[test]
fn shuffle_zwxy_example() {
    assert_eq!(f(1.0, 2.0, 3.0, 4.0).zwxy(), f(3.0, 4.0, 1.0, 2.0));
}

#[test]
fn shuffle_wxyz_example() {
    assert_eq!(f(1.0, 2.0, 3.0, 4.0).wxyz(), f(4.0, 1.0, 2.0, 3.0));
}

#[test]
fn remaining_fixed_shuffles() {
    let v = f(1.0, 2.0, 3.0, 4.0);
    assert_eq!(v.xxyy(), f(1.0, 1.0, 2.0, 2.0));
    assert_eq!(v.xyyx(), f(1.0, 2.0, 2.0, 1.0));
    assert_eq!(v.xzxz(), f(1.0, 3.0, 1.0, 3.0));
    assert_eq!(v.ywyw(), f(2.0, 4.0, 2.0, 4.0));
    assert_eq!(v.zzww(), f(3.0, 3.0, 4.0, 4.0));
    assert_eq!(v.zwzw(), f(3.0, 4.0, 3.0, 4.0));
}

#[test]
fn interleave_example() {
    let (lo, hi) = f(1.0, 2.0, 3.0, 4.0).interleave(f(10.0, 20.0, 30.0, 40.0));
    assert_eq!(lo, f(1.0, 10.0, 2.0, 20.0));
    assert_eq!(hi, f(3.0, 30.0, 4.0, 40.0));
}

#[test]
fn interleave_two_lanes() {
    let a = F64x2::new(1.0f64.to_bits(), 2.0f64.to_bits());
    let b = F64x2::new(10.0f64.to_bits(), 20.0f64.to_bits());
    let (lo, hi) = a.interleave(b);
    assert_eq!(lo, F64x2::new(1.0f64.to_bits(), 10.0f64.to_bits()));
    assert_eq!(hi, F64x2::new(2.0f64.to_bits(), 20.0f64.to_bits()));
}

#[test]
fn combine_low_high_takes_outer_lanes() {
    let a = F64x2::new(1.0f64.to_bits(), 2.0f64.to_bits());
    let b = F64x2::new(3.0f64.to_bits(), 4.0f64.to_bits());
    assert_eq!(a.combine_low_high(b), F64x2::new(1.0f64.to_bits(), 4.0f64.to_bits()));
}

#[test]
fn shuffle_gathers_by_table() {
    let v = U8x16::new([10, 11, 12, 13, 14, 15, 16, 17, 18, 19, 20, 21, 22, 23, 24, 25]);
    let table = U8x16::new([15, 14, 13, 12, 11, 10, 9, 8, 7, 6, 5, 4, 3, 2, 1, 0]);
    let r = v.shuffle(table);
    for i in 0..16 {
        let want = v.get((table.get(i) & 0xf) as usize);
        assert_eq!(r.get(i), want);
        assert_eq!(r.get(i), 25 - i as u8);
    }
}

#[test]
fn shuffle_masks_table_to_lane_range() {
    let v = U8x16::new([10, 11, 12, 13, 14, 15, 16, 17, 18, 19, 20, 21, 22, 23, 24, 25]);
    // Indices above 15 gather by their low four bits.
    let table = U8x16::new([16, 17, 255, 240, 0, 0, 0, 0, 0, 0, 0, 0, 0, 0, 0, 0]);
    let r = v.shuffle(table);
    assert_eq!(r.get(0), 10);
    assert_eq!(r.get(1), 11);
    assert_eq!(r.get(2), 25);
    assert_eq!(r.get(3), 10);
}

#[test]
fn shuffle_identity_table_copies_input() {
    let v = U8x16::new([9, 8, 7, 6, 5, 4, 3, 2, 1, 0, 99, 98, 97, 96, 95, 94]);
    let identity = U8x16::new([0, 1, 2, 3, 4, 5, 6, 7, 8, 9, 10, 11, 12, 13, 14, 15]);
    assert_eq!(v.shuffle(identity), v);
}
