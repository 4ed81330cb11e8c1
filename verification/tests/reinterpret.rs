//! Bit-reinterpretation between the 128-bit vector shapes: byte-for-byte,
//! never a numeric conversion, and exactly invertible.

use simd::F32x4;
use simd::F64x2;
use simd::I32x4;
use simd::U8x16;

fn f(a: f32, b: f32, c: f32, d: f32) -> F32x4 {
    F32x4::new(a.to_bits(), b.to_bits(), c.to_bits(), d.to_bits())
}

#[test]
fn f64x2_round_trip_is_exact() {
    let v = f(1.5, -2.25, 3e-7, 4096.0);
    assert_eq!(v.as_f64x2().as_f32x4(), v);
}

#[test]
fn f64x2_round_trip_keeps_nan_and_infinity_bits() {
    let v = F32x4::new(
        f32::NAN.to_bits(),
        f32::INFINITY.to_bits(),
        f32::NEG_INFINITY.to_bits(),
        (-0.0f32).to_bits(),
    );
    assert_eq!(v.as_f64x2().as_f32x4(), v);
    // A non-canonical NaN payload survives too.
    let odd = F32x4::new(0x7fc0_1234, 0xffc5_6789, 0x7f80_0001, 0x0000_0001);
    assert_eq!(odd.as_f64x2().as_f32x4(), odd);
}

#[test]
fn as_f64x2_packs_low_lane_first() {
    let v = F32x4::new(0x1111_1111, 0x2222_2222, 0x3333_3333, 0x4444_4444);
    let d = v.as_f64x2();
    assert_eq!(d.get(0), 0x2222_2222_1111_1111);
    assert_eq!(d.get(1), 0x4444_4444_3333_3333);
    assert_eq!(d.as_f32x4(), v);
}

#[test]
fn f64x2_matches_native_float_bits() {
    // The same 128 bits, read through the hardware-equivalent route.
    let a: f32 = 1.0;
    let b: f32 = -2.5;
    let v = f(a, b, a, b);
    let d = v.as_f64x2();
    let expected: u64 = (a.to_bits() as u64) | ((b.to_bits() as u64) << 32);
    assert_eq!(d.get(0), expected);
    assert_eq!(f64::from_bits(d.get(0)), f64::from_bits(expected));
}

#[test]
fn to_i32x4_reads_float_bits_as_integers() {
    let v = f(1.0, -1.0, 0.0, -0.0);
    let i = v.to_i32x4();
    assert_eq!(i.get(0), 0x3f80_0000);
    assert_eq!(i.get(1), 0xbf80_0000u32 as i32);
    assert_eq!(i.get(2), 0);
    assert_eq!(i.get(3), i32::MIN);
}

#[test]
fn as_u8x16_lays_lanes_out_little_endian() {
    let v = I32x4::new(0x0403_0201, 0x0807_0605, -1, 0x100f_0e0d);
    let b = v.as_u8x16();
    let expected: [u8; 16] = [1, 2, 3, 4, 5, 6, 7, 8, 255, 255, 255, 255, 13, 14, 15, 16];
    for i in 0..16 {
        assert_eq!(b.get(i), expected[i]);
    }
}

#[test]
fn u8x16_round_trip_is_exact() {
    let v = I32x4::new(i32::MIN, -1, 0, i32::MAX);
    assert_eq!(v.as_u8x16().as_i32x4(), v);
    let b = U8x16::new([0, 1, 2, 3, 4, 5, 6, 7, 248, 249, 250, 251, 252, 253, 254, 255]);
    assert_eq!(b.as_i32x4().as_u8x16(), b);
}

#[test]
fn as_i32x4_reassembles_little_endian() {
    let b = U8x16::new([1, 2, 3, 4, 5, 6, 7, 8, 255, 255, 255, 255, 13, 14, 15, 16]);
    let v = b.as_i32x4();
    assert_eq!(v, I32x4::new(0x0403_0201, 0x0807_0605, -1, 0x100f_0e0d));
}
