#![allow(non_snake_case)]

use sproingy::axis::Axis;
use sproingy::axis::AxisPair;
use sproingy::axis::Dragger;
use sproingy::axis::Interval;
use sproingy::rat::Rat;

/// Asserts that `a` denotes exactly the rational `n / d`.
fn assert_ratio(a: Rat, n: i128, d: i128) {
    assert!(d != 0);
    assert_eq!(a.num * d, n * a.den);
}

fn pair_480_360() -> AxisPair {
    AxisPair::new(
        Axis::withSize_PX(Rat::from_int(480)),
        Axis::withSize_PX(Rat::from_int(360)),
    )
}

#[test]
fn rat_arithmetic_exact() {
    let half = Rat::new(1, 2);
    let third = Rat::new(1, 3);
    let sum = half.add(third);
    assert_eq!(sum.num, 5);
    assert_eq!(sum.den, 6);
    let diff = half.sub(third);
    assert_ratio(diff, 1, 6);
    let prod = half.mul(third);
    assert_ratio(prod, 1, 6);
    let quot = half.div(third);
    assert_ratio(quot, 3, 2);
}

#[test]
fn rat_div_negative_divisor_keeps_denominator_positive() {
    let half = Rat::new(1, 2);
    let neg = Rat::new(-3, 4);
    let q = half.div(neg);
    assert!(q.den > 0);
    assert_ratio(q, -2, 3);
}

#[test]
fn interval_with_min_max() {
    let iv = Interval::withMinMax(Rat::from_int(3), Rat::from_int(10));
    assert_ratio(iv.min, 3, 1);
    assert_ratio(iv.span, 7, 1);
    let inverted = Interval::withMinMax(Rat::from_int(10), Rat::from_int(3));
    assert_ratio(inverted.span, -7, 1);
}

#[test]
fn interval_value_to_frac_endpoints() {
    let iv = Interval::new(Rat::from_int(2), Rat::from_int(8));
    assert_ratio(iv.valueToFrac(Rat::from_int(2)), 0, 1);
    assert_ratio(iv.valueToFrac(Rat::from_int(10)), 1, 1);
    assert_ratio(iv.valueToFrac(Rat::from_int(6)), 1, 2);
    // Out-of-range values land outside [0, 1]: that is the hit test.
    assert_ratio(iv.valueToFrac(Rat::from_int(14)), 3, 2);
    assert_ratio(iv.fracToValue(Rat::new(1, 2)), 6, 1);
}

#[test]
fn interval_round_trip_value_first() {
    let iv = Interval::new(Rat::new(3, 2), Rat::new(7, 3));
    let v = Rat::new(5, 4);
    let w = iv.fracToValue(iv.valueToFrac(v));
    assert_eq!(w.num * v.den, v.num * w.den);
}

#[test]
fn interval_round_trip_frac_first() {
    let iv = Interval::new(Rat::new(-9, 5), Rat::new(-7, 3));
    let f = Rat::new(11, 4);
    let g = iv.valueToFrac(iv.fracToValue(f));
    assert_eq!(g.num * f.den, f.num * g.den);
}

#[test]
fn axis_default_bounds_shows_ten_units_centered() {
    let a = Axis::withSize_PX(Rat::from_int(480));
    let b = a.bounds();
    assert_ratio(b.min, -5, 1);
    assert_ratio(b.span, 10, 1);
}

#[test]
fn axis_pixel_conversions() {
    let a = Axis::withSize_PX(Rat::from_int(480));
    assert_ratio(a.pxToFrac(Rat::from_int(0)), 0, 1);
    assert_ratio(a.pxToFrac(Rat::from_int(240)), 1, 2);
    assert_ratio(a.pxToFrac(Rat::from_int(480)), 1, 1);
    // Default view is [-5, 5), so the center pixel sits at coordinate 0.
    assert_ratio(a.pxToCoord(Rat::from_int(240)), 0, 1);
    assert_ratio(a.pxToCoord(Rat::from_int(0)), -5, 1);
    assert_ratio(a.pxToCoord(Rat::from_int(480)), 5, 1);
}

#[test]
fn axis_new_from_offset_viewport() {
    let a = Axis::new(Interval::new(Rat::from_int(100), Rat::from_int(200)));
    // scale = 200 / 10 = 20, so 10 data units are visible.
    let b = a.bounds();
    assert_ratio(b.span, 10, 1);
    assert_ratio(b.min, -5, 1);
    assert_ratio(a.pxToCoord(Rat::from_int(100)), -5, 1);
}

#[test]
fn axis_set_anchors_coordinate_at_fraction() {
    let mut a = Axis::withSize_PX(Rat::from_int(480));
    let frac = Rat::new(1, 4);
    let coord = Rat::new(7, 2);
    let scale = Rat::from_int(3);
    a.set(frac, coord, scale);
    let at = a.bounds().fracToValue(frac);
    assert_eq!(at.num * coord.den, coord.num * at.den);
    // The new visible span is viewport / scale = 480 / 3.
    assert_ratio(a.bounds().span, 160, 1);
}

#[test]
fn axis_set_with_negative_scale_inverts_bounds() {
    let mut a = Axis::withSize_PX(Rat::from_int(480));
    a.set(Rat::new(1, 2), Rat::from_int(0), Rat::from_int(-48));
    let b = a.bounds();
    assert_ratio(b.span, -10, 1);
    // The anchored coordinate still sits at the anchored fraction.
    assert_ratio(b.fracToValue(Rat::new(1, 2)), 0, 1);
}

#[test]
fn hit_test_inside_and_outside() {
    let pair = pair_480_360();
    assert!(pair.canHandlePress([Rat::from_int(240), Rat::from_int(180)]));
    assert!(!pair.canHandlePress([Rat::from_int(500), Rat::from_int(180)]));
    assert!(!pair.canHandlePress([Rat::from_int(240), Rat::from_int(-1)]));
    assert!(!pair.canHandlePress([Rat::from_int(-1), Rat::from_int(180)]));
    assert!(!pair.canHandlePress([Rat::from_int(240), Rat::from_int(361)]));
}

#[test]
fn hit_test_accepts_viewport_edges() {
    let pair = pair_480_360();
    assert!(pair.canHandlePress([Rat::from_int(0), Rat::from_int(0)]));
    assert!(pair.canHandlePress([Rat::from_int(480), Rat::from_int(360)]));
}

#[test]
fn pan_puts_grabbed_point_under_pointer() {
    let mut pair = pair_480_360();
    let p0 = [Rat::from_int(100), Rat::from_int(50)];
    let p1 = [Rat::from_int(200), Rat::from_int(80)];
    let c0x = pair.x.pxToCoord(p0[0]);
    let c0y = pair.y.pxToCoord(p0[1]);
    pair.handlePress(p0);
    pair.handleDrag(p1);
    let c1x = pair.x.pxToCoord(p1[0]);
    let c1y = pair.y.pxToCoord(p1[1]);
    assert_eq!(c1x.num * c0x.den, c0x.num * c1x.den);
    assert_eq!(c1y.num * c0y.den, c0y.num * c1y.den);
}

#[test]
fn drag_at_fixed_pointer_is_idempotent() {
    let mut pair = pair_480_360();
    let p0 = [Rat::from_int(240), Rat::from_int(180)];
    let p1 = [Rat::from_int(30), Rat::from_int(300)];
    pair.handlePress(p0);
    pair.handleDrag(p1);
    let once = pair;
    pair.handleDrag(p1);
    assert_eq!(pair, once);
}

#[test]
fn release_applies_final_drag_update() {
    let mut a = pair_480_360();
    let mut b = pair_480_360();
    let p0 = [Rat::from_int(240), Rat::from_int(180)];
    let p1 = [Rat::from_int(0), Rat::from_int(180)];
    a.handlePress(p0);
    a.handleDrag(p1);
    b.handlePress(p0);
    b.handleRelease(p1);
    assert_eq!(a, b);
}

#[test]
fn press_is_idempotent_at_fixed_pointer() {
    let mut pair = pair_480_360();
    let p0 = [Rat::from_int(120), Rat::from_int(90)];
    pair.handlePress(p0);
    let once = pair;
    pair.handlePress(p0);
    assert_eq!(pair, once);
}

#[test]
fn drag_from_center_to_left_edge_shifts_by_half_span() {
    let mut pair = pair_480_360();
    let before = pair.x.bounds();
    assert_ratio(before.min, -5, 1);
    assert_ratio(before.span, 10, 1);
    pair.handlePress([Rat::from_int(240), Rat::from_int(180)]);
    pair.handleDrag([Rat::from_int(0), Rat::from_int(180)]);
    let after = pair.x.bounds();
    // The span is unchanged and the window moved by half of it: the data
    // point grabbed at the center (coordinate 0) now sits at pixel 0.
    assert_ratio(after.span, 10, 1);
    assert_ratio(after.min, 0, 1);
    assert_ratio(pair.x.pxToCoord(Rat::from_int(0)), 0, 1);
}
