//! The axis view model: intervals, per-axis pan/zoom state, and the
//! drag-interaction capability over a pair of axes.
//!
//! An [`Interval`] is a numeric range, `min` plus a signed `span`, used both
//! for pixel extents and for data-value extents; it converts between values
//! and fractions of itself.  An [`Axis`] maps a fixed pixel viewport onto a
//! movable, scalable window of data values; [`Axis::set`] re-anchors that
//! mapping.  A [`Dragger`] is anything that can receive press/drag/release
//! pointer events; an [`AxisPair`] — one axis per screen dimension — is the
//! draggable that pans the view.
//!
//! Each executable type has a mathematical model ([`IntervalM`], [`AxisM`],
//! [`PairM`]) over unbounded rationals; contracts state the exact model each
//! operation produces.  The `*_fits` preconditions only keep the machine
//! integers the bodies compute representable.

use crate::rat::add_fits;
use crate::rat::div_fits;
use crate::rat::lemma_add_wf;
use crate::rat::lemma_div_wf;
use crate::rat::lemma_mul_wf;
use crate::rat::lemma_nonzero_mul;
use crate::rat::lemma_sub_wf;
use crate::rat::mul_fits;
use crate::rat::sub_fits;
use crate::rat::Rat;
use crate::rat::RatM;
use vstd::prelude::*;

verus! {

/// Mathematical model of an [`Interval`]: a range of rationals given by its
/// inclusive lower bound and signed extent.
pub struct IntervalM {
    pub min: RatM,
    pub span: RatM,
}

impl IntervalM {
    pub open spec fn wf(self) -> bool {
        self.min.wf() && self.span.wf()
    }

    /// Where `value` falls across the interval: 0 at `min`, 1 at
    /// `min + span`, outside `[0, 1]` for values outside the range.
    pub open spec fn value_to_frac(self, value: RatM) -> RatM {
        value.sub(self.min).div(self.span)
    }

    /// The value a fraction of the way across the interval:
    /// `min + frac * span`.
    pub open spec fn frac_to_value(self, frac: RatM) -> RatM {
        self.min.add(frac.mul(self.span))
    }

    /// The machine integers of the executable `valueToFrac` are
    /// representable.
    pub open spec fn value_to_frac_fits(self, value: RatM) -> bool {
        sub_fits(value, self.min) && div_fits(value.sub(self.min), self.span)
    }

    /// The machine integers of the executable `fracToValue` are
    /// representable.
    pub open spec fn frac_to_value_fits(self, frac: RatM) -> bool {
        mul_fits(frac, self.span) && add_fits(self.min, frac.mul(self.span))
    }
}

/// A numeric range: inclusive lower bound `min`, signed extent `span`
/// (the exclusive upper bound is `min + span`; a negative span is an
/// inverted range).  Used both for pixel extents and data-value extents.
#[derive(Clone, Copy, Debug, PartialEq, Eq, Structural)]
pub struct Interval {
    /// Inclusive lower bound.
    pub min: Rat,

    /// Difference between min and exclusive upper bound.
    pub span: Rat,
}

impl View for Interval {
    type V = IntervalM;

    open spec fn view(&self) -> IntervalM {
        IntervalM { min: self.min@, span: self.span@ }
    }
}

impl Interval {
    /// The interval with the given bound and extent, taken as given.
    pub fn new(min: Rat, span: Rat) -> (r: Interval)
        ensures
            r@ == (IntervalM { min: min@, span: span@ }),
    {
        Interval { min, span }
    }

    /// The interval from `min` to `max`: its span is `max - min`, negative
    /// when `max < min`.
    pub fn withMinMax(min: Rat, max: Rat) -> (r: Interval)
        requires
            min@.wf(),
            max@.wf(),
            sub_fits(max@, min@),
        ensures
            r@ == (IntervalM { min: min@, span: max@.sub(min@) }),
            r@.wf(),
    {
        Interval::new(min, max.sub(min))
    }

    /// Where `value` falls across the interval, as a fraction: 0 at `min`,
    /// 1 at the upper bound, outside `[0, 1]` beyond either end — callers
    /// use that as an out-of-range test.  A zero-width interval has no
    /// fractional positions, so `span` must not denote zero.
    pub fn valueToFrac(&self, value: Rat) -> (r: Rat)
        requires
            self@.wf(),
            value@.wf(),
            self.span.num != 0,
            self@.value_to_frac_fits(value@),
        ensures
            r@ == self@.value_to_frac(value@),
            r@.wf(),
    {
        value.sub(self.min).div(self.span)
    }

    /// The value a fraction of the way across the interval; the exact
    /// inverse of [`Interval::valueToFrac`] (see the round-trip laws).
    pub fn fracToValue(&self, frac: Rat) -> (r: Rat)
        requires
            self@.wf(),
            frac@.wf(),
            self@.frac_to_value_fits(frac@),
        ensures
            r@ == self@.frac_to_value(frac@),
            r@.wf(),
    {
        self.min.add(frac.mul(self.span))
    }
}

/// Mathematical model of an [`Axis`]: the fixed pixel viewport, the anchor
/// pair tying a viewport fraction to a data coordinate, the scale
/// (pixels per data unit), and the data coordinate grabbed at the last
/// press.
pub struct AxisM {
    pub viewport: IntervalM,
    pub tie_frac: RatM,
    pub tie_coord: RatM,
    pub scale: RatM,
    pub grab: RatM,
}

impl AxisM {
    /// Every component well-formed, the viewport not zero-width, the scale
    /// not zero: both are divided by.
    pub open spec fn wf(self) -> bool {
        &&& self.viewport.wf()
        &&& self.viewport.span.n != 0
        &&& self.tie_frac.wf()
        &&& self.tie_coord.wf()
        &&& self.scale.wf()
        &&& self.scale.n != 0
        &&& self.grab.wf()
    }

    /// The fresh state over a viewport: the default zoom shows 10 data
    /// units across the viewport, anchored with coordinate 0 at the
    /// viewport's center fraction 1/2.
    pub open spec fn init(viewport: IntervalM) -> AxisM {
        AxisM {
            viewport,
            tie_frac: RatM { n: 1, d: 2 },
            tie_coord: RatM::from_int(0),
            scale: viewport.span.div(RatM::from_int(10)),
            grab: RatM::from_int(0),
        }
    }

    /// The machine integers of the executable `new` are representable.
    pub open spec fn init_fits(viewport: IntervalM) -> bool {
        div_fits(viewport.span, RatM::from_int(10))
    }

    /// The currently visible data range, derived from the state:
    /// `span = viewport.span / scale`, with `tie_coord` sitting at fraction
    /// `tie_frac` of it.  The single source of truth for what is visible.
    pub open spec fn bounds(self) -> IntervalM {
        let span = self.viewport.span.div(self.scale);
        IntervalM { min: self.tie_coord.sub(self.tie_frac.mul(span)), span }
    }

    /// The machine integers of the executable `bounds` are representable.
    pub open spec fn bounds_fits(self) -> bool {
        let span = self.viewport.span.div(self.scale);
        &&& div_fits(self.viewport.span, self.scale)
        &&& mul_fits(self.tie_frac, span)
        &&& sub_fits(self.tie_coord, self.tie_frac.mul(span))
    }

    /// A pixel position as a fraction of the viewport.
    pub open spec fn px_to_frac(self, px: RatM) -> RatM {
        self.viewport.value_to_frac(px)
    }

    /// The machine integers of the executable `pxToFrac` are representable.
    pub open spec fn px_to_frac_fits(self, px: RatM) -> bool {
        self.viewport.value_to_frac_fits(px)
    }

    /// The data coordinate currently visible at a pixel position.
    pub open spec fn px_to_coord(self, px: RatM) -> RatM {
        self.bounds().frac_to_value(self.px_to_frac(px))
    }

    /// The machine integers of the executable `pxToCoord` are representable.
    pub open spec fn px_to_coord_fits(self, px: RatM) -> bool {
        &&& self.bounds_fits()
        &&& self.px_to_frac_fits(px)
        &&& self.bounds().frac_to_value_fits(self.px_to_frac(px))
    }

    /// The state after re-anchoring: the data value `coord` is tied to the
    /// viewport fraction `frac` at the new `scale`.  `tie_frac` itself is
    /// kept: the passed fraction enters the formula only as an offset from
    /// it, so `tie_coord` carries the whole adjustment.
    pub open spec fn with_set(self, frac: RatM, coord: RatM, scale: RatM) -> AxisM {
        let span = self.viewport.span.div(scale);
        AxisM {
            tie_coord: coord.add(self.tie_frac.sub(frac).mul(span)),
            scale,
            ..self
        }
    }

    /// The machine integers of the executable `set` are representable.
    pub open spec fn set_fits(self, frac: RatM, coord: RatM, scale: RatM) -> bool {
        let span = self.viewport.span.div(scale);
        &&& div_fits(self.viewport.span, scale)
        &&& sub_fits(self.tie_frac, frac)
        &&& mul_fits(self.tie_frac.sub(frac), span)
        &&& add_fits(coord, self.tie_frac.sub(frac).mul(span))
    }
}

/// One-dimensional pan/zoom view state: a fixed pixel viewport mapped onto
/// a movable, scalable window of data values.
///
/// Constructed once per screen dimension, mutated only through
/// [`Axis::set`] during gestures, read through [`Axis::bounds`] by whoever
/// renders.
#[derive(Clone, Copy, Debug, PartialEq, Eq, Structural)]
pub struct Axis {
    viewport_PX: Interval,
    tieFrac: Rat,
    tieCoord: Rat,
    scale: Rat,
    grabCoord: Rat,
}

impl View for Axis {
    type V = AxisM;

    closed spec fn view(&self) -> AxisM {
        AxisM {
            viewport: self.viewport_PX@,
            tie_frac: self.tieFrac@,
            tie_coord: self.tieCoord@,
            scale: self.scale@,
            grab: self.grabCoord@,
        }
    }
}

impl Axis {
    /// A fresh axis over the given pixel viewport, in the default state of
    /// [`AxisM::init`].  The viewport must not be zero-width: every later
    /// conversion divides by its span.
    pub fn new(viewport_PX: Interval) -> (r: Axis)
        requires
            viewport_PX@.wf(),
            viewport_PX.span.num != 0,
            AxisM::init_fits(viewport_PX@),
        ensures
            r@ == AxisM::init(viewport_PX@),
            r@.wf(),
    {
        Axis {
            scale: viewport_PX.span.div(Rat::from_int(10)),
            viewport_PX,
            tieFrac: Rat::new(1, 2),
            tieCoord: Rat::from_int(0),
            grabCoord: Rat::from_int(0),
        }
    }

    /// A fresh axis whose viewport runs from pixel 0 to
    /// `viewportSize_PX`.
    pub fn withSize_PX(viewportSize_PX: Rat) -> (r: Axis)
        requires
            viewportSize_PX@.wf(),
            viewportSize_PX.num != 0,
            AxisM::init_fits(IntervalM { min: RatM::from_int(0), span: viewportSize_PX@ }),
        ensures
            r@ == AxisM::init(IntervalM { min: RatM::from_int(0), span: viewportSize_PX@ }),
            r@.wf(),
    {
        Axis::new(Interval::new(Rat::from_int(0), viewportSize_PX))
    }

    /// The currently visible data range.  Pure: derived from the state on
    /// demand, never stored.  Its span denotes a nonzero value, so it can
    /// itself convert values to fractions.
    pub fn bounds(&self) -> (r: Interval)
        requires
            self@.wf(),
            self@.bounds_fits(),
        ensures
            r@ == self@.bounds(),
            r@.wf(),
            r@.span.n != 0,
    {
        let span = self.viewport_PX.span.div(self.scale);
        proof {
            lemma_nonzero_mul(self@.viewport.span.n, self@.scale.d);
        }
        let min = self.tieCoord.sub(self.tieFrac.mul(span));
        Interval { min, span }
    }

    /// A raw pixel position as a fraction of this axis's viewport; outside
    /// `[0, 1]` when the pixel is outside the viewport.
    pub fn pxToFrac(&self, px: Rat) -> (r: Rat)
        requires
            self@.wf(),
            px@.wf(),
            self@.px_to_frac_fits(px@),
        ensures
            r@ == self@.px_to_frac(px@),
            r@.wf(),
    {
        self.viewport_PX.valueToFrac(px)
    }

    /// The data coordinate currently visible at a raw pixel position.
    pub fn pxToCoord(&self, px: Rat) -> (r: Rat)
        requires
            self@.wf(),
            px@.wf(),
            self@.px_to_coord_fits(px@),
        ensures
            r@ == self@.px_to_coord(px@),
            r@.wf(),
    {
        let frac = self.pxToFrac(px);
        self.bounds().fracToValue(frac)
    }

    /// Re-anchor the mapping: after the call the data value `coord` appears
    /// at viewport fraction `frac`, at the new `scale` (see the anchoring
    /// law on [`AxisM::with_set`]).  A zero scale would make the visible
    /// span divide by zero, so it is ruled out; a negative scale is allowed
    /// and yields an inverted visible range.
    pub fn set(&mut self, frac: Rat, coord: Rat, scale: Rat)
        requires
            old(self)@.wf(),
            frac@.wf(),
            coord@.wf(),
            scale@.wf(),
            scale.num != 0,
            old(self)@.set_fits(frac@, coord@, scale@),
        ensures
            final(self)@ == old(self)@.with_set(frac@, coord@, scale@),
            final(self)@.wf(),
    {
        let span = self.viewport_PX.span.div(scale);
        self.tieCoord = coord.add(self.tieFrac.sub(frac).mul(span));
        self.scale = scale;
    }
}

/// Mathematical model of an [`AxisPair`]: one axis per screen dimension.
pub struct PairM {
    pub x: AxisM,
    pub y: AxisM,
}

impl AxisM {
    /// The state after a press: the data coordinate under the pointer
    /// becomes the grab anchor for the rest of the gesture; nothing else
    /// moves.
    pub open spec fn with_press(self, px: RatM) -> AxisM {
        AxisM { grab: self.px_to_coord(px), ..self }
    }

    /// The machine integers of the executable press are representable.
    pub open spec fn press_fits(self, px: RatM) -> bool {
        self.px_to_coord_fits(px)
    }

    /// The state after a drag step: re-anchor so the grabbed coordinate
    /// sits at the pointer's current viewport fraction, scale unchanged.
    pub open spec fn with_drag(self, px: RatM) -> AxisM {
        self.with_set(self.px_to_frac(px), self.grab, self.scale)
    }

    /// The machine integers of the executable drag step are representable.
    pub open spec fn drag_fits(self, px: RatM) -> bool {
        &&& self.px_to_frac_fits(px)
        &&& self.set_fits(self.px_to_frac(px), self.grab, self.scale)
    }
}

impl PairM {
    pub open spec fn wf(self) -> bool {
        self.x.wf() && self.y.wf()
    }

    /// The hit test: the pointer's fraction lies in `[0, 1]` on both axes.
    pub open spec fn hit(self, px: RatM, py: RatM) -> bool {
        self.x.px_to_frac(px).in_unit() && self.y.px_to_frac(py).in_unit()
    }

    pub open spec fn hit_fits(self, px: RatM, py: RatM) -> bool {
        self.x.px_to_frac_fits(px) && self.y.px_to_frac_fits(py)
    }

    pub open spec fn with_press(self, px: RatM, py: RatM) -> PairM {
        PairM { x: self.x.with_press(px), y: self.y.with_press(py) }
    }

    pub open spec fn press_fits(self, px: RatM, py: RatM) -> bool {
        self.x.press_fits(px) && self.y.press_fits(py)
    }

    pub open spec fn with_drag(self, px: RatM, py: RatM) -> PairM {
        PairM { x: self.x.with_drag(px), y: self.y.with_drag(py) }
    }

    pub open spec fn drag_fits(self, px: RatM, py: RatM) -> bool {
        self.x.drag_fits(px) && self.y.drag_fits(py)
    }
}

/// A value's fraction of a well-formed interval with nonzero span is a
/// well-formed rational.
pub proof fn lemma_value_to_frac_wf(iv: IntervalM, value: RatM)
    requires
        iv.wf(),
        iv.span.n != 0,
        value.wf(),
    ensures
        iv.value_to_frac(value).wf(),
{
    lemma_sub_wf(value, iv.min);
    lemma_div_wf(value.sub(iv.min), iv.span);
}

/// The value at a fraction of a well-formed interval is a well-formed
/// rational.
pub proof fn lemma_frac_to_value_wf(iv: IntervalM, frac: RatM)
    requires
        iv.wf(),
        frac.wf(),
    ensures
        iv.frac_to_value(frac).wf(),
{
    lemma_mul_wf(frac, iv.span);
    lemma_add_wf(iv.min, frac.mul(iv.span));
}

/// The visible bounds of a well-formed axis are a well-formed interval with
/// nonzero span.
pub proof fn lemma_bounds_wf(a: AxisM)
    requires
        a.wf(),
    ensures
        a.bounds().wf(),
        a.bounds().span.n != 0,
{
    let span = a.viewport.span.div(a.scale);
    lemma_div_wf(a.viewport.span, a.scale);
    lemma_nonzero_mul(a.viewport.span.n, a.scale.d);
    lemma_mul_wf(a.tie_frac, span);
    lemma_sub_wf(a.tie_coord, a.tie_frac.mul(span));
}

/// A pixel's viewport fraction on a well-formed axis is well-formed.
pub proof fn lemma_px_to_frac_wf(a: AxisM, px: RatM)
    requires
        a.wf(),
        px.wf(),
    ensures
        a.px_to_frac(px).wf(),
{
    lemma_value_to_frac_wf(a.viewport, px);
}

/// The data coordinate at a pixel of a well-formed axis is well-formed.
pub proof fn lemma_px_to_coord_wf(a: AxisM, px: RatM)
    requires
        a.wf(),
        px.wf(),
    ensures
        a.px_to_coord(px).wf(),
{
    lemma_bounds_wf(a);
    lemma_px_to_frac_wf(a, px);
    lemma_frac_to_value_wf(a.bounds(), a.px_to_frac(px));
}

/// A press keeps a well-formed axis well-formed.
pub proof fn lemma_with_press_wf(a: AxisM, px: RatM)
    requires
        a.wf(),
        px.wf(),
    ensures
        a.with_press(px).wf(),
{
    lemma_px_to_coord_wf(a, px);
}

/// The draggable capability: a hit test and three gesture events, fed raw
/// pointer positions in device pixels by an external dispatch layer.  The
/// dispatcher tries draggables in order on a press, keeps at most one
/// active per gesture, and delivers press, then drags, then one release to
/// it.
///
/// The spec functions let each draggable state its own invariant, which
/// inputs its arithmetic accepts, what its hit test decides, and how each
/// event transforms it; the method contracts are stated once here over
/// those.
pub trait Dragger: Sized {
    /// The invariant the draggable maintains across events.
    spec fn inv(&self) -> bool;

    /// Inputs the hit test accepts (for [`AxisPair`]: the arithmetic stays
    /// in machine range).
    spec fn hit_ok(&self, mouse_PX: [Rat; 2]) -> bool;

    /// What the hit test decides.
    spec fn hit(&self, mouse_PX: [Rat; 2]) -> bool;

    /// Inputs a press accepts.
    spec fn press_ok(&self, mouse_PX: [Rat; 2]) -> bool;

    /// How a press transforms the state.
    spec fn press_post(pre: Self, post: Self, mouse_PX: [Rat; 2]) -> bool;

    /// Inputs a drag accepts.
    spec fn drag_ok(&self, mouse_PX: [Rat; 2]) -> bool;

    /// How a drag step transforms the state.
    spec fn drag_post(pre: Self, post: Self, mouse_PX: [Rat; 2]) -> bool;

    /// Inputs a release accepts.
    spec fn release_ok(&self, mouse_PX: [Rat; 2]) -> bool;

    /// How a release transforms the state.
    spec fn release_post(pre: Self, post: Self, mouse_PX: [Rat; 2]) -> bool;

    /// Pure hit test: would this draggable take a press at this pointer
    /// position?  No state changes; the caller decides whether to follow
    /// up with `handlePress`.
    fn canHandlePress(&self, mouse_PX: [Rat; 2]) -> (r: bool)
        requires
            self.inv(),
            self.hit_ok(mouse_PX),
        ensures
            r == self.hit(mouse_PX),
    ;

    /// A gesture begins at this pointer position.
    fn handlePress(&mut self, mouse_PX: [Rat; 2])
        requires
            old(self).inv(),
            old(self).press_ok(mouse_PX),
        ensures
            final(self).inv(),
            Self::press_post(*old(self), *final(self), mouse_PX),
    ;

    /// The pointer moved to this position during a gesture.
    fn handleDrag(&mut self, mouse_PX: [Rat; 2])
        requires
            old(self).inv(),
            old(self).drag_ok(mouse_PX),
        ensures
            final(self).inv(),
            Self::drag_post(*old(self), *final(self), mouse_PX),
    ;

    /// The gesture ends at this pointer position.
    fn handleRelease(&mut self, mouse_PX: [Rat; 2])
        requires
            old(self).inv(),
            old(self).release_ok(mouse_PX),
        ensures
            final(self).inv(),
            Self::release_post(*old(self), *final(self), mouse_PX),
    ;
}

/// Two axes, one per screen dimension, treated as a single draggable:
/// pressing grabs the data point under the pointer, dragging re-anchors
/// both axes so that point follows the pointer — the view pans rigidly.
#[derive(Clone, Copy, Debug, PartialEq, Eq, Structural)]
pub struct AxisPair {
    pub x: Axis,
    pub y: Axis,
}

impl View for AxisPair {
    type V = PairM;

    open spec fn view(&self) -> PairM {
        PairM { x: self.x@, y: self.y@ }
    }
}

impl AxisPair {
    pub fn new(x: Axis, y: Axis) -> (r: AxisPair)
        ensures
            r@ == (PairM { x: x@, y: y@ }),
    {
        AxisPair { x, y }
    }
}

impl Dragger for AxisPair {
    open spec fn inv(&self) -> bool {
        self@.wf()
    }

    open spec fn hit_ok(&self, mouse_PX: [Rat; 2]) -> bool {
        mouse_PX[0]@.wf() && mouse_PX[1]@.wf() && self@.hit_fits(mouse_PX[0]@, mouse_PX[1]@)
    }

    open spec fn hit(&self, mouse_PX: [Rat; 2]) -> bool {
        self@.hit(mouse_PX[0]@, mouse_PX[1]@)
    }

    open spec fn press_ok(&self, mouse_PX: [Rat; 2]) -> bool {
        mouse_PX[0]@.wf() && mouse_PX[1]@.wf() && self@.press_fits(mouse_PX[0]@, mouse_PX[1]@)
    }

    open spec fn press_post(pre: AxisPair, post: AxisPair, mouse_PX: [Rat; 2]) -> bool {
        post@ == pre@.with_press(mouse_PX[0]@, mouse_PX[1]@)
    }

    open spec fn drag_ok(&self, mouse_PX: [Rat; 2]) -> bool {
        mouse_PX[0]@.wf() && mouse_PX[1]@.wf() && self@.drag_fits(mouse_PX[0]@, mouse_PX[1]@)
    }

    open spec fn drag_post(pre: AxisPair, post: AxisPair, mouse_PX: [Rat; 2]) -> bool {
        post@ == pre@.with_drag(mouse_PX[0]@, mouse_PX[1]@)
    }

    open spec fn release_ok(&self, mouse_PX: [Rat; 2]) -> bool {
        mouse_PX[0]@.wf() && mouse_PX[1]@.wf() && self@.drag_fits(mouse_PX[0]@, mouse_PX[1]@)
    }

    /// A release is one final drag update; the dispatcher then clears its
    /// active-draggable slot.
    open spec fn release_post(pre: AxisPair, post: AxisPair, mouse_PX: [Rat; 2]) -> bool {
        post@ == pre@.with_drag(mouse_PX[0]@, mouse_PX[1]@)
    }

    fn canHandlePress(&self, mouse_PX: [Rat; 2]) -> (r: bool) {
        let fx = self.x.pxToFrac(mouse_PX[0]);
        if fx.num < 0 || fx.num > fx.den {
            return false;
        }
        let fy = self.y.pxToFrac(mouse_PX[1]);
        if fy.num < 0 || fy.num > fy.den {
            return false;
        }
        true
    }

    fn handlePress(&mut self, mouse_PX: [Rat; 2]) {
        let gx = self.x.pxToCoord(mouse_PX[0]);
        self.x.grabCoord = gx;
        let gy = self.y.pxToCoord(mouse_PX[1]);
        self.y.grabCoord = gy;
    }

    fn handleDrag(&mut self, mouse_PX: [Rat; 2]) {
        let fx = self.x.pxToFrac(mouse_PX[0]);
        let sx = self.x.scale;
        let gx = self.x.grabCoord;
        self.x.set(fx, gx, sx);
        let fy = self.y.pxToFrac(mouse_PX[1]);
        let sy = self.y.scale;
        let gy = self.y.grabCoord;
        self.y.set(fy, gy, sy);
    }

    fn handleRelease(&mut self, mouse_PX: [Rat; 2]) {
        let fx = self.x.pxToFrac(mouse_PX[0]);
        let sx = self.x.scale;
        let gx = self.x.grabCoord;
        self.x.set(fx, gx, sx);
        let fy = self.y.pxToFrac(mouse_PX[1]);
        let sy = self.y.scale;
        let gy = self.y.grabCoord;
        self.y.set(fy, gy, sy);
    }
}

} // verus!
