//! The four-lane float vector: construction, comparison masks, and the
//! NaN-aware minimum and maximum, exercised on decoded float values.

use simd::F32x4;

fn f(a: f32, b: f32, c: f32, d: f32) -> F32x4 {
    F32x4::new(a.to_bits(), b.to_bits(), c.to_bits(), d.to_bits())
}

#[test]
fn construct_orders_lanes() {
    let v = f(1.0, 2.0, 3.0, 4.0);
    assert_eq!(f32::from_bits(v.get(0)), 1.0);
    assert_eq!(f32::from_bits(v.get(1)), 2.0);
    assert_eq!(f32::from_bits(v.get(2)), 3.0);
    assert_eq!(f32::from_bits(v.get(3)), 4.0);
}

#[test]
fn splat_fills_all_lanes() {
    let v = F32x4::splat(7.5f32.to_bits());
    assert_eq!(v, f(7.5, 7.5, 7.5, 7.5));
}

#[test]
fn set_replaces_one_lane() {
    let mut v = f(1.0, 2.0, 3.0, 4.0);
    v.set(2, 9.0f32.to_bits());
    assert_eq!(v, f(1.0, 2.0, 9.0, 4.0));
}

#[test]
fn equality_mask_all_lanes_equal() {
    let m = f(1.0, 2.0, 3.0, 4.0).packed_eq(f(1.0, 2.0, 3.0, 4.0));
    assert!(m.is_all_ones());
    for i in 0..4 {
        assert_eq!(m.get(i), u32::MAX);
    }
}

#[test]
fn equality_mask_one_lane_differs() {
    let m = f(1.0, 2.0, 3.0, 4.0).packed_eq(f(1.0, 2.0, 3.0, 5.0));
    assert_eq!(m.get(0), u32::MAX);
    assert_eq!(m.get(1), u32::MAX);
    assert_eq!(m.get(2), u32::MAX);
    assert_eq!(m.get(3), 0);
    assert!(!m.is_all_ones());
}

#[test]
fn nan_compares_unequal_to_itself() {
    let v = f(f32::NAN, 1.0, f32::NAN, 2.0);
    let m = v.packed_eq(v);
    assert_eq!(m.get(0), 0);
    assert_eq!(m.get(1), u32::MAX);
    assert_eq!(m.get(2), 0);
    assert_eq!(m.get(3), u32::MAX);
}

#[test]
fn zero_encodings_compare_equal() {
    let m = f(0.0, -0.0, 0.0, -0.0).packed_eq(f(-0.0, 0.0, 0.0, -0.0));
    assert!(m.is_all_ones());
}

#[test]
fn min_prefers_number_over_nan() {
    let r = f(1.0, f32::NAN, 3.0, 4.0).min(f(5.0, 5.0, 5.0, 5.0));
    assert_eq!(f32::from_bits(r.get(0)), 1.0);
    assert_eq!(f32::from_bits(r.get(1)), 5.0);
    assert_eq!(f32::from_bits(r.get(2)), 3.0);
    assert_eq!(f32::from_bits(r.get(3)), 4.0);
}

#[test]
fn max_prefers_number_over_nan() {
    let r = f(1.0, f32::NAN, 3.0, 4.0).max(f(5.0, 5.0, 0.5, 5.0));
    assert_eq!(f32::from_bits(r.get(0)), 5.0);
    assert_eq!(f32::from_bits(r.get(1)), 5.0);
    assert_eq!(f32::from_bits(r.get(2)), 3.0);
    assert_eq!(f32::from_bits(r.get(3)), 5.0);
}

#[test]
fn min_orders_negatives_and_infinities() {
    let r = f(-1.0, f32::NEG_INFINITY, f32::INFINITY, -0.5).min(f(-2.0, 0.0, 1e30, -0.25));
    assert_eq!(f32::from_bits(r.get(0)), -2.0);
    assert_eq!(f32::from_bits(r.get(1)), f32::NEG_INFINITY);
    assert_eq!(f32::from_bits(r.get(2)), 1e30);
    assert_eq!(f32::from_bits(r.get(3)), -0.5);
}

#[test]
fn max_orders_mixed_signs() {
    let r = f(-1.0, 2.0, -3.0, 0.0).max(f(1.0, -2.0, -4.0, -1.0));
    assert_eq!(r, f(1.0, 2.0, -3.0, 0.0));
}
