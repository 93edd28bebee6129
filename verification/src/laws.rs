//! The laws of the view model, proved over the mathematical models.
//!
//! Each proof function here states a property of the model functions that
//! the executable contracts in [`crate::axis`] produce, so together they
//! pin down the interaction behaviour: fraction/value conversion round
//! trips, `set` anchors exactly, a press-then-drag puts the grabbed
//! coordinate exactly under the pointer, and dragging twice to the same
//! place changes nothing the second time.

use crate::axis::lemma_px_to_coord_wf;
use crate::axis::lemma_px_to_frac_wf;
use crate::axis::lemma_with_press_wf;
use crate::axis::AxisM;
use crate::axis::IntervalM;
use crate::axis::PairM;
use crate::rat::RatM;
use vstd::prelude::*;

verus! {

/// Round trip, value first: converting a value to its fraction of an
/// interval and that fraction back to a value yields the same number,
/// for any interval whose span is nonzero.
pub proof fn lemma_frac_value_round_trip(iv: IntervalM, value: RatM)
    requires
        iv.wf(),
        iv.span.n != 0,
        value.wf(),
    ensures
        iv.frac_to_value(iv.value_to_frac(value)).eqv(value),
{
    let mn = iv.min.n;
    let md = iv.min.d;
    let sn = iv.span.n;
    let sd = iv.span.d;
    let vn = value.n;
    let vd = value.d;
    let f = iv.value_to_frac(value);
    let w = iv.frac_to_value(f);
    assert(w.n == mn * (f.d * sd) + (f.n * sn) * md);
    assert(w.d == md * (f.d * sd));
    if sn >= 0 {
        assert(f.n == 1 * ((vn * md - mn * vd) * sd));
        assert(f.d == 1 * ((vd * md) * sn));
        lemma_round_trip_identity(mn, md, sn, sd, vn, vd, 1);
    } else {
        assert(f.n == (-1) * ((vn * md - mn * vd) * sd));
        assert(f.d == (-1) * ((vd * md) * sn));
        lemma_round_trip_identity(mn, md, sn, sd, vn, vd, -1);
    }
}

/// Round trip, fraction first: converting a fraction of an interval to its
/// value and that value back to a fraction yields the same number, for any
/// interval whose span is nonzero.
pub proof fn lemma_value_frac_round_trip(iv: IntervalM, frac: RatM)
    requires
        iv.wf(),
        iv.span.n != 0,
        frac.wf(),
    ensures
        iv.value_to_frac(iv.frac_to_value(frac)).eqv(frac),
{
    let mn = iv.min.n;
    let md = iv.min.d;
    let sn = iv.span.n;
    let sd = iv.span.d;
    let qn = frac.n;
    let qd = frac.d;
    let w = iv.frac_to_value(frac);
    let g = iv.value_to_frac(w);
    assert(w.n == mn * (qd * sd) + (qn * sn) * md);
    assert(w.d == md * (qd * sd));
    if sn >= 0 {
        assert(g.n == 1 * ((w.n * md - mn * w.d) * sd));
        assert(g.d == 1 * ((w.d * md) * sn));
        lemma_inverse_trip_identity(mn, md, sn, sd, qn, qd, 1);
    } else {
        assert(g.n == (-1) * ((w.n * md - mn * w.d) * sd));
        assert(g.d == (-1) * ((w.d * md) * sn));
        lemma_inverse_trip_identity(mn, md, sn, sd, qn, qd, -1);
    }
}

/// Anchoring: after `set(frac, coord, scale)`, the data value visible at
/// viewport fraction `frac` of the new bounds is exactly `coord`, for any
/// well-formed fraction, coordinate and nonzero scale.
pub proof fn lemma_set_anchors(a: AxisM, frac: RatM, coord: RatM, scale: RatM)
    requires
        a.wf(),
        frac.wf(),
        coord.wf(),
        scale.wf(),
        scale.n != 0,
    ensures
        a.with_set(frac, coord, scale).bounds().frac_to_value(frac).eqv(coord),
{
    let sp = a.viewport.span.div(scale);
    let pn = sp.n;
    let pd = sp.d;
    let tn = a.tie_frac.n;
    let td = a.tie_frac.d;
    let qn = frac.n;
    let qd = frac.d;
    let cn = coord.n;
    let cd = coord.d;
    let a2 = a.with_set(frac, coord, scale);
    let t2 = a2.tie_coord;
    let b2 = a2.bounds();
    let res = b2.frac_to_value(frac);
    assert(b2.span == sp);
    assert(t2.n == cn * ((td * qd) * pd) + ((tn * qd - qn * td) * pn) * cd);
    assert(t2.d == cd * ((td * qd) * pd));
    assert(b2.min.n == t2.n * (td * pd) - (tn * pn) * t2.d);
    assert(b2.min.d == t2.d * (td * pd));
    assert(res.n == b2.min.n * (qd * pd) + (qn * pn) * b2.min.d);
    assert(res.d == b2.min.d * (qd * pd));
    lemma_anchor_identity(tn, td, qn, qd, cn, cd, pn, pd);
}

/// Pan invariant: after a press at `p0` and a drag to `p1`, the data
/// coordinate that was under `p0` before the gesture is exactly under
/// `p1`, for any pointer positions and axis state.
pub proof fn lemma_pan(a: AxisM, p0: RatM, p1: RatM)
    requires
        a.wf(),
        p0.wf(),
        p1.wf(),
    ensures
        ({
            let pressed = a.with_press(p0);
            let dragged = pressed.with_drag(p1);
            dragged.px_to_coord(p1).eqv(a.px_to_coord(p0))
        }),
{
    let pressed = a.with_press(p0);
    let dragged = pressed.with_drag(p1);
    lemma_with_press_wf(a, p0);
    lemma_px_to_coord_wf(a, p0);
    let f1 = pressed.px_to_frac(p1);
    lemma_px_to_frac_wf(pressed, p1);
    lemma_set_anchors(pressed, f1, pressed.grab, pressed.scale);
    assert(dragged.px_to_frac(p1) == f1);
    assert(dragged.px_to_coord(p1) == dragged.bounds().frac_to_value(f1));
}

/// Idempotence of drag at a fixed pointer: dragging to the same position
/// twice leaves exactly the state the first drag produced.
pub proof fn lemma_drag_idempotent(a: AxisM, p: RatM)
    requires
        a.wf(),
        p.wf(),
    ensures
        a.with_drag(p).with_drag(p) == a.with_drag(p),
{
    let a1 = a.with_drag(p);
    assert(a1.viewport == a.viewport);
    assert(a1.px_to_frac(p) == a.px_to_frac(p));
    assert(a1.with_drag(p).tie_coord == a1.tie_coord);
    assert(a1.with_drag(p) == a1);
}

/// Pan invariant for the two-axis draggable: after `handlePress` at `p0`
/// and `handleDrag` at `p1`, the data point that was under `p0` is exactly
/// under `p1`, in both dimensions.
pub proof fn lemma_pan_pair(m: PairM, p0x: RatM, p0y: RatM, p1x: RatM, p1y: RatM)
    requires
        m.wf(),
        p0x.wf(),
        p0y.wf(),
        p1x.wf(),
        p1y.wf(),
    ensures
        ({
            let pressed = m.with_press(p0x, p0y);
            let dragged = pressed.with_drag(p1x, p1y);
            &&& dragged.x.px_to_coord(p1x).eqv(m.x.px_to_coord(p0x))
            &&& dragged.y.px_to_coord(p1y).eqv(m.y.px_to_coord(p0y))
        }),
{
    lemma_pan(m.x, p0x, p1x);
    lemma_pan(m.y, p0y, p1y);
}

/// Idempotence of drag for the two-axis draggable: a second `handleDrag`
/// at the same pointer position reproduces the state of the first one.
pub proof fn lemma_drag_idempotent_pair(m: PairM, px: RatM, py: RatM)
    requires
        m.wf(),
        px.wf(),
        py.wf(),
    ensures
        m.with_drag(px, py).with_drag(px, py) == m.with_drag(px, py),
{
    lemma_drag_idempotent(m.x, px);
    lemma_drag_idempotent(m.y, py);
}

/// The ring identity behind the value-first round trip: substituting the
/// fraction's numerator and denominator (up to a common sign `e`) into the
/// fraction-to-value formula gives back the value, by cross multiplication.
proof fn lemma_round_trip_identity(mn: int, md: int, sn: int, sd: int, vn: int, vd: int, e: int)
    ensures
        (mn * ((e * ((vd * md) * sn)) * sd) + ((e * ((vn * md - mn * vd) * sd)) * sn) * md) * vd
            == vn * (md * ((e * ((vd * md) * sn)) * sd)),
{
    broadcast use vstd::arithmetic::mul::group_mul_is_commutative_and_distributive, vstd::arithmetic::mul::lemma_mul_is_associative;
}

/// The ring identity behind the fraction-first round trip.
proof fn lemma_inverse_trip_identity(mn: int, md: int, sn: int, sd: int, qn: int, qd: int, e: int)
    ensures
        ({
            let wn = mn * (qd * sd) + (qn * sn) * md;
            let wd = md * (qd * sd);
            (e * ((wn * md - mn * wd) * sd)) * qd == qn * (e * ((wd * md) * sn))
        }),
{
    broadcast use vstd::arithmetic::mul::group_mul_is_commutative_and_distributive, vstd::arithmetic::mul::lemma_mul_is_associative;
}

/// The ring identity behind the anchoring law: the value the re-anchored
/// bounds place at the passed fraction cross-multiplies to the passed
/// coordinate.
proof fn lemma_anchor_identity(tn: int, td: int, qn: int, qd: int, cn: int, cd: int, pn: int, pd: int)
    ensures
        ({
            let t2n = cn * ((td * qd) * pd) + ((tn * qd - qn * td) * pn) * cd;
            let t2d = cd * ((td * qd) * pd);
            let bn = t2n * (td * pd) - (tn * pn) * t2d;
            let bd = t2d * (td * pd);
            let rn = bn * (qd * pd) + (qn * pn) * bd;
            let rd = bd * (qd * pd);
            rn * cd == cn * rd
        }),
{
    broadcast use vstd::arithmetic::mul::group_mul_is_commutative_and_distributive, vstd::arithmetic::mul::lemma_mul_is_associative;
}

} // verus!
