//! Fitting an arrangement of regions into a viewport.
//!
//! The scale factor is the exact ratio `num / den`. Screen coordinates are
//! integers counted in units of `1 / unit` pixel, where `unit` is twice the
//! scale's denominator, so that scaling, centring and halving never round.

use crate::geometry::{Point, Rectangle};
use crate::output_grid::OutputData;
use vstd::prelude::*;

verus! {

/// The gutter, in pixels, taken off each side of a projected region.
pub const INSET: u32 = 4;

/// Bound on the magnitude of every screen coordinate the layout produces.
pub const SCREEN_LIMIT: i128 = 0x10000000000000000000000000;

/// A uniform scale factor, the ratio `num / den`.
#[derive(Clone, Copy, Debug, PartialEq, Eq, Structural)]
pub struct Scale {
    pub num: u32,
    pub den: u32,
}

/// A point on screen: `(x / unit, y / unit)` in pixels.
#[derive(Clone, Copy, Debug, PartialEq, Eq, Structural)]
pub struct ScreenPoint {
    pub x: i128,
    pub y: i128,
    pub unit: u64,
}

/// A rectangle on screen, every field counted in `1 / unit` pixel.
#[derive(Clone, Copy, Debug, PartialEq, Eq, Structural)]
pub struct ScreenRect {
    pub x: i128,
    pub y: i128,
    pub width: i128,
    pub height: i128,
    pub unit: u64,
}

/// Scale factor and centring offset for one viewport and region set.
#[derive(Clone, Copy, Debug, PartialEq, Eq, Structural)]
pub struct LayoutResult {
    pub scale_factor: Scale,
    pub offset: ScreenPoint,
}

/// Half of `v`, rounded towards zero.
pub open spec fn half(v: int) -> int {
    if v >= 0 {
        v / 2
    } else {
        -((-v) / 2)
    }
}

pub open spec fn within_limit(v: i128) -> bool {
    -SCREEN_LIMIT <= v <= SCREEN_LIMIT
}

impl ScreenRect {
    pub open spec fn wf(self) -> bool {
        &&& self.unit > 0
        &&& within_limit(self.x)
        &&& within_limit(self.y)
        &&& within_limit(self.width)
        &&& within_limit(self.height)
    }

    /// The point lies inside: on or after the near edges, strictly before the
    /// far edges.
    pub open spec fn contains_spec(self, p: Point) -> bool {
        &&& self.x <= p.x * self.unit
        &&& p.x * self.unit < self.x + self.width
        &&& self.y <= p.y * self.unit
        &&& p.y * self.unit < self.y + self.height
    }

    /// The middle of the rectangle. Exact whenever both extents are even,
    /// which holds of every clickable rectangle.
    pub open spec fn center_spec(self) -> ScreenPoint {
        ScreenPoint {
            x: (self.x + half(self.width as int)) as i128,
            y: (self.y + half(self.height as int)) as i128,
            unit: self.unit,
        }
    }

    pub fn contains(&self, p: Point) -> (out: bool)
        requires
            self.wf(),
        ensures
            out == self.contains_spec(p),
    {
        let px: i128 = mul_wide(p.x, self.unit);
        let py: i128 = mul_wide(p.y, self.unit);
        self.x <= px && px < self.x + self.width && self.y <= py && py < self.y + self.height
    }

    pub fn center(&self) -> (out: ScreenPoint)
        requires
            self.wf(),
        ensures
            out == self.center_spec(),
    {
        let half_width: i128 = if self.width >= 0 { self.width / 2 } else { -((-self.width) / 2) };
        let half_height: i128 = if self.height >= 0 {
            self.height / 2
        } else {
            -((-self.height) / 2)
        };
        ScreenPoint { x: self.x + half_width, y: self.y + half_height, unit: self.unit }
    }
}

impl LayoutResult {
    pub open spec fn wf(self) -> bool {
        &&& self.scale_factor.den > 0
        &&& self.offset.unit == 2 * self.scale_factor.den
        &&& -0x1_0000_0000_0000_0000 <= self.offset.x <= 0x1_0000_0000_0000_0000
        &&& -0x1_0000_0000_0000_0000 <= self.offset.y <= 0x1_0000_0000_0000_0000
    }
}

/// The union of all region bounds in stored order, starting from the zero
/// rectangle.
pub open spec fn union_all(regions: Seq<OutputData>) -> Rectangle
    decreases regions.len(),
{
    if regions.len() == 0 {
        Rectangle::zero_spec()
    } else {
        union_all(regions.drop_last()).union_spec(regions.last().rec)
    }
}

/// The scale that fits `bounds` into `viewport` on both axes: the smaller of
/// the two axis ratios, or one where `bounds` has a zero dimension.
pub open spec fn scale_spec(bounds: Rectangle, viewport: Rectangle) -> Scale {
    if bounds.width == 0 || bounds.height == 0 {
        Scale { num: 1, den: 1 }
    } else if viewport.width * bounds.height <= viewport.height * bounds.width {
        Scale { num: viewport.width, den: bounds.width }
    } else {
        Scale { num: viewport.height, den: bounds.height }
    }
}

/// Scale and offset that centre the scaled `bounds` within `viewport`.
pub open spec fn fit_spec(bounds: Rectangle, viewport: Rectangle) -> LayoutResult {
    let s = scale_spec(bounds, viewport);
    LayoutResult {
        scale_factor: s,
        offset: ScreenPoint {
            x: (viewport.width * s.den - bounds.width * s.num) as i128,
            y: (viewport.height * s.den - bounds.height * s.num) as i128,
            unit: (2 * s.den) as u64,
        },
    }
}

pub open spec fn layout_spec(regions: Seq<OutputData>, viewport: Rectangle) -> LayoutResult {
    fit_spec(union_all(regions), viewport)
}

/// `rec` with its position and its extent multiplied by `scale`, in units of
/// one over twice the scale's denominator.
pub open spec fn scaled_spec(rec: Rectangle, scale: Scale) -> ScreenRect {
    ScreenRect {
        x: (2 * (rec.x * scale.num)) as i128,
        y: (2 * (rec.y * scale.num)) as i128,
        width: (2 * (rec.width * scale.num)) as i128,
        height: (2 * (rec.height * scale.num)) as i128,
        unit: (2 * scale.den) as u64,
    }
}

/// `rec` scaled by the layout's factor, then moved by its offset.
pub open spec fn project_spec(rec: Rectangle, layout: LayoutResult) -> ScreenRect {
    let s = scaled_spec(rec, layout.scale_factor);
    ScreenRect {
        x: (s.x + layout.offset.x) as i128,
        y: (s.y + layout.offset.y) as i128,
        width: s.width,
        height: s.height,
        unit: layout.offset.unit,
    }
}

/// The projected rectangle shrunk by the inset on all four sides.
pub open spec fn clickable_spec(rec: Rectangle, layout: LayoutResult) -> ScreenRect {
    let p = project_spec(rec, layout);
    ScreenRect {
        x: (p.x + INSET * p.unit) as i128,
        y: (p.y + INSET * p.unit) as i128,
        width: (p.width - 2 * (INSET * p.unit)) as i128,
        height: (p.height - 2 * (INSET * p.unit)) as i128,
        unit: p.unit,
    }
}

/// A product with a factor of at most 32 bits is bounded by the other factor.
pub proof fn lemma_product_bound(a: int, b: int)
    requires
        0 <= a <= 0xFFFF_FFFF,
        0 <= b,
    ensures
        0 <= a * b <= 0xFFFF_FFFF * b,
{
    assert(0 <= a * b <= 0xFFFF_FFFF * b) by (nonlinear_arith)
        requires
            0 <= a <= 0xFFFF_FFFF,
            0 <= b,
    ;
}

fn mul_wide(a: u32, b: u64) -> (p: i128)
    ensures
        p == a * b,
        0 <= p <= 0xFFFF_FFFF * b,
{
    proof {
        lemma_product_bound(a as int, b as int);
    }
    (a as i128) * (b as i128)
}

fn mul32(a: u32, b: u32) -> (p: i128)
    ensures
        p == a * b,
        0 <= p <= 0xFFFF_FFFE_0000_0001,
{
    mul_wide(a, b as u64)
}

/// Folds the region bounds into their union.
pub fn union_of(regions: &Vec<OutputData>) -> (out: Rectangle)
    requires
        forall|i: int| 0 <= i < regions@.len() ==> (#[trigger] regions@[i]).rec.wf(),
    ensures
        out == union_all(regions@),
        out.wf(),
{
    let mut acc = Rectangle::zero();
    let mut i: usize = 0;
    while i < regions.len()
        invariant
            0 <= i <= regions@.len(),
            forall|k: int| 0 <= k < regions@.len() ==> (#[trigger] regions@[k]).rec.wf(),
            acc == union_all(regions@.take(i as int)),
            acc.wf(),
        decreases regions@.len() - i,
    {
        proof {
            assert(regions@.take(i + 1).drop_last() =~= regions@.take(i as int));
        }
        acc = acc.union(&regions[i].rec);
        i += 1;
    }
    proof {
        assert(regions@.take(i as int) =~= regions@);
    }
    acc
}

/// Scale and centring offset for `bounds` within `viewport`.
pub fn fit(bounds: Rectangle, viewport: Rectangle) -> (out: LayoutResult)
    ensures
        out == fit_spec(bounds, viewport),
        out.wf(),
{
    let mut num: u32 = 1;
    let mut den: u32 = 1;
    if bounds.width != 0 && bounds.height != 0 {
        if mul32(viewport.width, bounds.height) <= mul32(viewport.height, bounds.width) {
            num = viewport.width;
            den = bounds.width;
        } else {
            num = viewport.height;
            den = bounds.height;
        }
    }
    let x: i128 = mul32(viewport.width, den) - mul32(bounds.width, num);
    let y: i128 = mul32(viewport.height, den) - mul32(bounds.height, num);
    LayoutResult {
        scale_factor: Scale { num, den },
        offset: ScreenPoint { x, y, unit: 2 * (den as u64) },
    }
}

/// Computes the uniform scale factor and the centring offset that fit the
/// union of all regions into the viewport. A union with a zero dimension gives
/// the scale one; a viewport with a zero dimension gives the scale zero.
pub fn compute_layout(regions: &Vec<OutputData>, viewport: Rectangle) -> (out: LayoutResult)
    requires
        forall|i: int| 0 <= i < regions@.len() ==> (#[trigger] regions@[i]).rec.wf(),
    ensures
        out == layout_spec(regions@, viewport),
        out.wf(),
{
    fit(union_of(regions), viewport)
}

/// Multiplies the position and the extent of `rec` by `scale`.
pub fn scale_rectangle(rec: Rectangle, scale: Scale) -> (out: ScreenRect)
    ensures
        out == scaled_spec(rec, scale),
        scale.den > 0 ==> out.wf(),
{
    ScreenRect {
        x: 2 * mul32(rec.x, scale.num),
        y: 2 * mul32(rec.y, scale.num),
        width: 2 * mul32(rec.width, scale.num),
        height: 2 * mul32(rec.height, scale.num),
        unit: 2 * (scale.den as u64),
    }
}

fn project(rec: Rectangle, layout: &LayoutResult) -> (out: ScreenRect)
    requires
        layout.wf(),
    ensures
        out == project_spec(rec, *layout),
        0 < out.unit <= 0x1_FFFF_FFFF,
        -0x8_0000_0000_0000_0000 <= out.x <= 0x8_0000_0000_0000_0000,
        -0x8_0000_0000_0000_0000 <= out.y <= 0x8_0000_0000_0000_0000,
        0 <= out.width <= 0x8_0000_0000_0000_0000,
        0 <= out.height <= 0x8_0000_0000_0000_0000,
{
    let s = scale_rectangle(rec, layout.scale_factor);
    proof {
        lemma_product_bound(rec.x as int, layout.scale_factor.num as int);
        lemma_product_bound(rec.y as int, layout.scale_factor.num as int);
        lemma_product_bound(rec.width as int, layout.scale_factor.num as int);
        lemma_product_bound(rec.height as int, layout.scale_factor.num as int);
    }
    ScreenRect {
        x: s.x + layout.offset.x,
        y: s.y + layout.offset.y,
        width: s.width,
        height: s.height,
        unit: layout.offset.unit,
    }
}

/// The region's bounds scaled, then moved by the layout's offset.
pub fn project_region(region: &OutputData, layout: &LayoutResult) -> (out: ScreenRect)
    requires
        layout.wf(),
    ensures
        out == project_spec(region.rec, *layout),
        out.wf(),
{
    project(region.rec, layout)
}

/// The region's clickable rectangle: its projection shrunk by the inset on
/// every side. Hit-testing and drawing both go through this function.
pub fn clickable_region(region: &OutputData, layout: &LayoutResult) -> (out: ScreenRect)
    requires
        layout.wf(),
    ensures
        out == clickable_spec(region.rec, *layout),
        out.wf(),
{
    let p = project(region.rec, layout);
    let gutter: i128 = mul_wide(INSET, p.unit);
    ScreenRect {
        x: p.x + gutter,
        y: p.y + gutter,
        width: p.width - 2 * gutter,
        height: p.height - 2 * gutter,
        unit: p.unit,
    }
}

pub open spec fn all_regions_wf(regions: Seq<OutputData>) -> bool {
    forall|i: int| 0 <= i < regions.len() ==> (#[trigger] regions[i]).rec.wf()
}

pub open spec fn some_region_solid(regions: Seq<OutputData>) -> bool {
    exists|i: int| 0 <= i < regions.len() && (#[trigger] regions[i]).rec.has_area()
}

/// `v` is the least left edge among the regions that cover area.
pub open spec fn is_least_left(regions: Seq<OutputData>, v: int) -> bool {
    &&& forall|i: int|
        0 <= i < regions.len() && (#[trigger] regions[i]).rec.has_area() ==> v
            <= regions[i].rec.x
    &&& exists|i: int|
        0 <= i < regions.len() && (#[trigger] regions[i]).rec.has_area() && regions[i].rec.x == v
}

/// `v` is the least top edge among the regions that cover area.
pub open spec fn is_least_top(regions: Seq<OutputData>, v: int) -> bool {
    &&& forall|i: int|
        0 <= i < regions.len() && (#[trigger] regions[i]).rec.has_area() ==> v
            <= regions[i].rec.y
    &&& exists|i: int|
        0 <= i < regions.len() && (#[trigger] regions[i]).rec.has_area() && regions[i].rec.y == v
}

/// `v` is the greatest right edge among the regions that cover area.
pub open spec fn is_greatest_right(regions: Seq<OutputData>, v: int) -> bool {
    &&& forall|i: int|
        0 <= i < regions.len() && (#[trigger] regions[i]).rec.has_area() ==> v
            >= regions[i].rec.right()
    &&& exists|i: int|
        0 <= i < regions.len() && (#[trigger] regions[i]).rec.has_area()
            && regions[i].rec.right() == v
}

/// `v` is the greatest bottom edge among the regions that cover area.
pub open spec fn is_greatest_bottom(regions: Seq<OutputData>, v: int) -> bool {
    &&& forall|i: int|
        0 <= i < regions.len() && (#[trigger] regions[i]).rec.has_area() ==> v
            >= regions[i].rec.bottom()
    &&& exists|i: int|
        0 <= i < regions.len() && (#[trigger] regions[i]).rec.has_area()
            && regions[i].rec.bottom() == v
}

/// Where no region covers area, neither does the union.
pub proof fn lemma_union_without_area(regions: Seq<OutputData>)
    requires
        !some_region_solid(regions),
    ensures
        !union_all(regions).has_area(),
    decreases regions.len(),
{
    if regions.len() > 0 {
        let head = regions.drop_last();
        assert forall|i: int| 0 <= i < head.len() implies !(#[trigger] head[i]).rec.has_area() by {
            assert(head[i] == regions[i]);
        }
        lemma_union_without_area(head);
        assert(regions.last() == regions[regions.len() - 1]);
    }
}

/// Each edge of the union is the least, respectively greatest, edge on its
/// axis among the regions that cover area, whenever some region does. For a
/// non-empty set of regions that all cover area, these are the least and
/// greatest edges of all regions.
pub proof fn law_union_edges(regions: Seq<OutputData>)
    requires
        all_regions_wf(regions),
        some_region_solid(regions),
    ensures
        is_least_left(regions, union_all(regions).x as int),
        is_least_top(regions, union_all(regions).y as int),
        is_greatest_right(regions, union_all(regions).right()),
        is_greatest_bottom(regions, union_all(regions).bottom()),
        union_all(regions).has_area(),
        union_all(regions).wf(),
    decreases regions.len(),
{
    let head = regions.drop_last();
    let last = regions.last();
    let n = regions.len() - 1;
    assert(last == regions[n]);
    assert forall|i: int| 0 <= i < head.len() implies head[i] == regions[i] by {}
    if !some_region_solid(head) {
        lemma_union_without_area(head);
        assert(union_all(regions) == last.rec);
        let w = choose|i: int| 0 <= i < regions.len() && (#[trigger] regions[i]).rec.has_area();
        if w < n {
            assert(head[w].rec.has_area());
        }
        assert(regions[n].rec.has_area());
        assert forall|i: int|
            0 <= i < regions.len() && (#[trigger] regions[i]).rec.has_area() implies i == n by {
            if i < n {
                assert(head[i].rec.has_area());
            }
        }
    } else {
        assert forall|i: int| 0 <= i < head.len() implies (#[trigger] head[i]).rec.wf() by {
            assert(head[i] == regions[i]);
        }
        law_union_edges(head);
        let u = union_all(head);
        let a = choose|i: int|
            0 <= i < head.len() && (#[trigger] head[i]).rec.has_area() && head[i].rec.x == u.x;
        let b = choose|i: int|
            0 <= i < head.len() && (#[trigger] head[i]).rec.has_area() && head[i].rec.y == u.y;
        let c = choose|i: int|
            0 <= i < head.len() && (#[trigger] head[i]).rec.has_area() && head[i].rec.right()
                == u.right();
        let d = choose|i: int|
            0 <= i < head.len() && (#[trigger] head[i]).rec.has_area() && head[i].rec.bottom()
                == u.bottom();
        assert(head[a] == regions[a] && head[b] == regions[b]);
        assert(head[c] == regions[c] && head[d] == regions[d]);
        if last.rec.has_area() {
            crate::geometry::lemma_union_edges(u, last.rec);
        }
        let all = union_all(regions);
        assert forall|i: int|
            0 <= i < regions.len() && (#[trigger] regions[i]).rec.has_area() implies all.x
            <= regions[i].rec.x && all.y <= regions[i].rec.y && all.right()
            >= regions[i].rec.right() && all.bottom() >= regions[i].rec.bottom() by {
            if i < n {
                assert(head[i] == regions[i]);
            }
        }
    }
}

/// For a non-empty set of regions that all cover area, each edge of the union
/// equals the least, respectively greatest, of all the regions' edges on that
/// axis.
pub proof fn law_union_edges_of_solid_regions(regions: Seq<OutputData>)
    requires
        regions.len() > 0,
        forall|i: int|
            0 <= i < regions.len() ==> (#[trigger] regions[i]).rec.wf() && regions[i].rec.has_area(),
    ensures
        forall|i: int|
            0 <= i < regions.len() ==> {
                &&& union_all(regions).x <= (#[trigger] regions[i]).rec.x
                &&& union_all(regions).y <= regions[i].rec.y
                &&& union_all(regions).right() >= regions[i].rec.right()
                &&& union_all(regions).bottom() >= regions[i].rec.bottom()
            },
        exists|i: int|
            0 <= i < regions.len() && (#[trigger] regions[i]).rec.x == union_all(regions).x,
        exists|i: int|
            0 <= i < regions.len() && (#[trigger] regions[i]).rec.y == union_all(regions).y,
        exists|i: int|
            0 <= i < regions.len() && (#[trigger] regions[i]).rec.right() == union_all(
                regions,
            ).right(),
        exists|i: int|
            0 <= i < regions.len() && (#[trigger] regions[i]).rec.bottom() == union_all(
                regions,
            ).bottom(),
{
    assert(regions[0].rec.has_area());
    law_union_edges(regions);
}

/// Doubling both viewport dimensions exactly doubles the scale factor,
/// whenever the union of the regions covers area.
pub proof fn law_scale_doubles(regions: Seq<OutputData>, viewport: Rectangle, doubled: Rectangle)
    requires
        union_all(regions).has_area(),
        doubled.width == 2 * viewport.width,
        doubled.height == 2 * viewport.height,
    ensures
        layout_spec(regions, doubled).scale_factor.num == 2 * layout_spec(
            regions,
            viewport,
        ).scale_factor.num,
        layout_spec(regions, doubled).scale_factor.den == layout_spec(
            regions,
            viewport,
        ).scale_factor.den,
{
    let u = union_all(regions);
    let w = viewport.width as int;
    let h = viewport.height as int;
    let uw = u.width as int;
    let uh = u.height as int;
    assert((2 * w) * uh == 2 * (w * uh)) by (nonlinear_arith);
    assert((2 * h) * uw == 2 * (h * uw)) by (nonlinear_arith);
}

/// The scale factor is positive whenever the viewport covers area, and zero
/// where a viewport without area meets a union that covers area.
pub proof fn law_scale_sign(regions: Seq<OutputData>, viewport: Rectangle)
    ensures
        layout_spec(regions, viewport).scale_factor.den > 0,
        viewport.has_area() ==> layout_spec(regions, viewport).scale_factor.num > 0,
        !viewport.has_area() && union_all(regions).has_area() ==> layout_spec(
            regions,
            viewport,
        ).scale_factor.num == 0,
{
    let u = union_all(regions);
    let w = viewport.width as int;
    let h = viewport.height as int;
    let uw = u.width as int;
    let uh = u.height as int;
    if u.has_area() {
        if w == 0 {
            assert(w * uh == 0) by (nonlinear_arith)
                requires
                    w == 0,
            ;
            assert(0 <= h * uw) by (nonlinear_arith)
                requires
                    0 <= h,
                    0 <= uw,
            ;
        } else if h == 0 {
            assert(h * uw == 0) by (nonlinear_arith)
                requires
                    h == 0,
            ;
            assert(0 < w * uh) by (nonlinear_arith)
                requires
                    0 < w,
                    0 < uh,
            ;
        }
    }
}

/// The scaled union is no wider and no taller than the viewport and touches it
/// on at least one axis, whenever the union of the regions covers area.
pub proof fn law_fit(regions: Seq<OutputData>, viewport: Rectangle)
    requires
        union_all(regions).has_area(),
    ensures
        ({
            let s = layout_spec(regions, viewport).scale_factor;
            let u = union_all(regions);
            let scaled = scaled_spec(u, s);
            &&& u.width * s.num <= viewport.width * s.den
            &&& u.height * s.num <= viewport.height * s.den
            &&& scaled.width <= viewport.width * scaled.unit
            &&& scaled.height <= viewport.height * scaled.unit
            &&& (scaled.width == viewport.width * scaled.unit || scaled.height == viewport.height
                * scaled.unit)
        }),
{
    let u = union_all(regions);
    let s = layout_spec(regions, viewport).scale_factor;
    let w = viewport.width as int;
    let h = viewport.height as int;
    let uw = u.width as int;
    let uh = u.height as int;
    let d = s.den as int;
    assert(uw * w == w * uw) by (nonlinear_arith);
    assert(uh * w == w * uh) by (nonlinear_arith);
    assert(uw * h == h * uw) by (nonlinear_arith);
    assert(uh * h == h * uh) by (nonlinear_arith);
    lemma_product_bound(uw, s.num as int);
    lemma_product_bound(uh, s.num as int);
    assert(w * (2 * d) == 2 * (w * d)) by (nonlinear_arith);
    assert(h * (2 * d) == 2 * (h * d)) by (nonlinear_arith);
}

/// The scaled union is centred: on each axis the offset plus half the scaled
/// union's extent is half the viewport's extent. Stated in screen units, with
/// both sides doubled.
pub proof fn law_centered(regions: Seq<OutputData>, viewport: Rectangle)
    ensures
        ({
            let layout = layout_spec(regions, viewport);
            let scaled = project_spec(union_all(regions), layout);
            &&& 2 * (layout.offset.x + half(scaled.width as int)) == viewport.width
                * layout.offset.unit
            &&& 2 * (layout.offset.y + half(scaled.height as int)) == viewport.height
                * layout.offset.unit
            &&& scaled.width % 2 == 0
            &&& scaled.height % 2 == 0
        }),
{
    let u = union_all(regions);
    let s = scale_spec(u, viewport);
    lemma_product_bound(viewport.width as int, s.den as int);
    lemma_product_bound(viewport.height as int, s.den as int);
    lemma_product_bound(u.width as int, s.num as int);
    lemma_product_bound(u.height as int, s.num as int);
    let w = viewport.width as int;
    let h = viewport.height as int;
    let d = s.den as int;
    assert(w * (2 * d) == 2 * (w * d)) by (nonlinear_arith);
    assert(h * (2 * d) == 2 * (h * d)) by (nonlinear_arith);
}

} // verus!
