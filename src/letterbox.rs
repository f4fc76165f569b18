use vstd::arithmetic::div_mod::{lemma_div_by_multiple, lemma_div_is_ordered, lemma_fundamental_div_mod, lemma_mod_bound};
use vstd::prelude::*;

verus! {

/// The fixed-point unit: a normalized coordinate `v` stands for `v / FIXED_ONE`.
pub const FIXED_ONE: u32 = 16777216;

/// Side of the square input of the bundled models.
pub const MODEL_INPUT_SIZE: u32 = 560;

/// How an image of `src_width` x `src_height` pixels was fitted into a
/// `side` x `side` canvas: resized, to keep its aspect ratio, to
/// `new_width` x `new_height` (the longer edge, `span`, becomes `side`) and
/// pasted at (`offset_x`, `offset_y`).
#[derive(Debug, Clone, Copy, PartialEq, Eq, Structural)]
pub struct LetterboxGeometry {
    pub side: u32,
    pub src_width: u32,
    pub src_height: u32,
    pub span: u32,
    pub new_width: u32,
    pub new_height: u32,
    pub offset_x: u32,
    pub offset_y: u32,
}

/// The geometry for a `w` x `h` image in a `side` x `side` canvas. A wide
/// image fills the width and is centered vertically; any other fills the
/// height and is centered horizontally.
pub open spec fn geometry_of(w: u32, h: u32, side: u32) -> LetterboxGeometry {
    if w > h {
        let nh = (side as int * h as int / w as int) as u32;
        LetterboxGeometry {
            side,
            src_width: w,
            src_height: h,
            span: w,
            new_width: side,
            new_height: nh,
            offset_x: 0,
            offset_y: ((side - nh) / 2) as u32,
        }
    } else {
        let nw = (side as int * w as int / h as int) as u32;
        LetterboxGeometry {
            side,
            src_width: w,
            src_height: h,
            span: h,
            new_width: nw,
            new_height: side,
            offset_x: ((side - nw) / 2) as u32,
            offset_y: 0,
        }
    }
}

impl LetterboxGeometry {
    pub open spec fn wf(&self) -> bool {
        &&& self.side > 0
        &&& self.src_width > 0
        &&& self.src_height > 0
        &&& *self == geometry_of(self.src_width, self.src_height, self.side)
    }
}

pub open spec fn clamp(x: int, lo: int, hi: int) -> int {
    if x < lo {
        lo
    } else if x > hi {
        hi
    } else {
        x
    }
}

/// Where the preprocessor places a point along one axis. `x` is
/// normalized to the original image; the resized image covers canvas
/// pixels `offset .. offset + new_extent`, so the point lands on pixel
/// `offset + x * new_extent`, returned normalized to the canvas side.
pub open spec fn letterbox_point(x: int, offset: int, new_extent: int, side: int) -> int {
    (offset * FIXED_ONE + x * new_extent) / side
}

/// The inverse of `letterbox_point`: a canvas-normalized coordinate `v` is
/// taken to canvas pixels (`v * side`), the padding `offset` removed, and
/// the scale of the resize undone. Normalized to the original image, that
/// is `(v * side - offset) / new_extent`, clamped to the image.
pub open spec fn unletterbox(v: int, offset: int, new_extent: int, side: int) -> int {
    if new_extent <= 0 {
        0
    } else {
        clamp(v * side - offset * FIXED_ONE, 0, new_extent * FIXED_ONE) / new_extent
    }
}

pub open spec fn unletterbox_x(g: LetterboxGeometry, v: int) -> int {
    unletterbox(v, g.offset_x as int, g.new_width as int, g.side as int)
}

pub open spec fn unletterbox_y(g: LetterboxGeometry, v: int) -> int {
    unletterbox(v, g.offset_y as int, g.new_height as int, g.side as int)
}

/// Where the preprocessor places a point of the original image, along
/// each axis, in canvas-normalized coordinates.
pub open spec fn letterbox_x(g: LetterboxGeometry, x: int) -> int {
    letterbox_point(x, g.offset_x as int, g.new_width as int, g.side as int)
}

pub open spec fn letterbox_y(g: LetterboxGeometry, y: int) -> int {
    letterbox_point(y, g.offset_y as int, g.new_height as int, g.side as int)
}

proof fn lemma_quotient_le(a: int, b: int, c: int)
    requires
        0 <= a <= b * c,
        b > 0,
        c >= 0,
    ensures
        0 <= a / b <= c,
{
    lemma_div_is_ordered(a, b * c, b);
    lemma_div_by_multiple(c, b);
    assert(b * c == c * b) by (nonlinear_arith);
    lemma_div_is_ordered(0, a, b);
}

/// The resized image fits in the canvas on both axes.
pub proof fn lemma_geometry_fits(w: u32, h: u32, side: u32)
    requires
        w > 0,
        h > 0,
        side > 0,
    ensures
        ({
            let g = geometry_of(w, h, side);
            &&& g.new_width <= side
            &&& g.new_height <= side
            &&& g.offset_x + g.new_width <= side
            &&& g.offset_y + g.new_height <= side
        }),
{
    let (s, wi, hi) = (side as int, w as int, h as int);
    if w > h {
        assert(s * hi <= s * wi) by (nonlinear_arith)
            requires
                hi < wi,
                s > 0,
        ;
        lemma_div_is_ordered(s * hi, s * wi, wi);
        lemma_div_by_multiple(s, wi);
        lemma_div_is_ordered(0, s * hi, wi);
    } else {
        assert(s * wi <= s * hi) by (nonlinear_arith)
            requires
                wi <= hi,
                s > 0,
        ;
        lemma_div_is_ordered(s * wi, s * hi, hi);
        lemma_div_by_multiple(s, hi);
        lemma_div_is_ordered(0, s * wi, hi);
    }
}

/// The inverse transform lands in the normalized range.
pub proof fn lemma_unletterbox_bounds(v: int, offset: int, new_extent: int, side: int)
    ensures
        0 <= unletterbox(v, offset, new_extent, side) <= FIXED_ONE,
{
    if new_extent > 0 {
        let c = clamp(v * side - offset * FIXED_ONE, 0, new_extent * FIXED_ONE);
        lemma_quotient_le(c, new_extent, FIXED_ONE as int);
    }
}

/// The inverse transform keeps the order of coordinates.
pub proof fn lemma_unletterbox_monotone(v1: int, v2: int, offset: int, new_extent: int, side: int)
    requires
        v1 <= v2,
        side > 0,
    ensures
        unletterbox(v1, offset, new_extent, side) <= unletterbox(v2, offset, new_extent, side),
{
    if new_extent > 0 {
        assert(v1 * side <= v2 * side) by (nonlinear_arith)
            requires
                v1 <= v2,
                side > 0,
        ;
        let hi = new_extent * FIXED_ONE;
        lemma_div_is_ordered(
            clamp(v1 * side - offset * FIXED_ONE, 0, hi),
            clamp(v2 * side - offset * FIXED_ONE, 0, hi),
            new_extent,
        );
    }
}

/// Round trip along one axis: a point inside the image lands inside the
/// canvas, and brought back by the inverse transform it returns to itself
/// up to rounding: never beyond it, and short of it by less than
/// `side / new_extent + 1` fixed-point units.
pub proof fn lemma_letterbox_round_trip(x: int, offset: int, new_extent: int, side: int)
    requires
        0 <= x <= FIXED_ONE,
        0 <= offset,
        0 < new_extent,
        offset + new_extent <= side,
    ensures
        ({
            let v = letterbox_point(x, offset, new_extent, side);
            let back = unletterbox(v, offset, new_extent, side);
            &&& 0 <= v <= FIXED_ONE
            &&& back <= x
            &&& (x - back) * new_extent < side + new_extent
        }),
{
    let n = offset * FIXED_ONE + x * new_extent;
    assert(0 <= n <= side * FIXED_ONE) by (nonlinear_arith)
        requires
            n == offset * FIXED_ONE + x * new_extent,
            0 <= x <= FIXED_ONE,
            0 <= offset,
            0 < new_extent,
            offset + new_extent <= side,
    ;
    lemma_quotient_le(n, side, FIXED_ONE as int);
    let v = n / side;
    let r = n % side;
    lemma_fundamental_div_mod(n, side);
    lemma_mod_bound(n, side);
    let inner = v * side - offset * FIXED_ONE;
    assert(inner == x * new_extent - r) by (nonlinear_arith)
        requires
            n == side * v + r,
            n == offset * FIXED_ONE + x * new_extent,
            inner == v * side - offset * FIXED_ONE,
    ;
    assert(x * new_extent <= new_extent * FIXED_ONE) by (nonlinear_arith)
        requires
            x <= FIXED_ONE,
            new_extent > 0,
    ;
    let back = unletterbox(v, offset, new_extent, side);
    if inner < 0 {
        assert(back == 0int / new_extent);
        assert((x - back) * new_extent < side + new_extent) by (nonlinear_arith)
            requires
                x * new_extent < r,
                r < side,
                back == 0,
                new_extent > 0,
        ;
    } else {
        assert(back == inner / new_extent);
        lemma_fundamental_div_mod(inner, new_extent);
        lemma_mod_bound(inner, new_extent);
        let q = inner / new_extent;
        let m = inner % new_extent;
        assert(q <= x && (x - q) * new_extent < side + new_extent) by (nonlinear_arith)
            requires
                inner == new_extent * q + m,
                inner == x * new_extent - r,
                0 <= m < new_extent,
                0 <= r < side,
        ;
    }
}

/// Round trip through a recorded geometry: a point of the original image,
/// placed in the canvas as the preprocessor places it and brought back by
/// the inverse transform, returns to itself up to rounding on each axis.
pub proof fn lemma_geometry_round_trip(g: LetterboxGeometry, x: int, y: int)
    requires
        g.wf(),
        g.new_width > 0,
        g.new_height > 0,
        0 <= x <= FIXED_ONE,
        0 <= y <= FIXED_ONE,
    ensures
        0 <= letterbox_x(g, x) <= FIXED_ONE,
        0 <= letterbox_y(g, y) <= FIXED_ONE,
        unletterbox_x(g, letterbox_x(g, x)) <= x,
        (x - unletterbox_x(g, letterbox_x(g, x))) * g.new_width < g.side + g.new_width,
        unletterbox_y(g, letterbox_y(g, y)) <= y,
        (y - unletterbox_y(g, letterbox_y(g, y))) * g.new_height < g.side + g.new_height,
{
    lemma_geometry_fits(g.src_width, g.src_height, g.side);
    lemma_letterbox_round_trip(x, g.offset_x as int, g.new_width as int, g.side as int);
    lemma_letterbox_round_trip(y, g.offset_y as int, g.new_height as int, g.side as int);
}

/// The edges of the pasted image map back to the edges of the original
/// image: a canvas coordinate at or before the start of the pasted image
/// gives 0, one at or after its end gives 1.
pub proof fn lemma_pasted_edges_map_to_image_edges(v: int, offset: int, new_extent: int, side: int)
    requires
        0 < new_extent,
    ensures
        v * side <= offset * FIXED_ONE ==> unletterbox(v, offset, new_extent, side) == 0,
        v * side >= (offset + new_extent) * FIXED_ONE ==> unletterbox(v, offset, new_extent, side)
            == FIXED_ONE,
{
    lemma_div_by_multiple(FIXED_ONE as int, new_extent);
    assert(new_extent * FIXED_ONE == FIXED_ONE * new_extent) by (nonlinear_arith);
    assert((offset + new_extent) * FIXED_ONE == offset * FIXED_ONE + new_extent * FIXED_ONE)
        by (nonlinear_arith);
}

/// A square image of any side fills the canvas with no padding, and the
/// inverse transform is the identity on normalized coordinates; when its
/// side equals the canvas side the scale is one.
pub proof fn lemma_square_is_identity(n: u32, side: u32)
    requires
        n > 0,
        side > 0,
    ensures
        ({
            let g = geometry_of(n, n, side);
            &&& g.new_width == side
            &&& g.new_height == side
            &&& g.offset_x == 0
            &&& g.offset_y == 0
            &&& g.span == n
            &&& forall|v: int|
                0 <= v <= FIXED_ONE ==> #[trigger] unletterbox_x(g, v) == v && unletterbox_y(g, v) == v
        }),
{
    let g = geometry_of(n, n, side);
    lemma_div_by_multiple(side as int, n as int);
    assert(side * n == (side as int) * (n as int));
    assert forall|v: int| 0 <= v <= FIXED_ONE implies #[trigger] unletterbox_x(g, v) == v
        && unletterbox_y(g, v) == v by {
        let s = side as int;
        assert(0 <= v * s <= s * FIXED_ONE) by (nonlinear_arith)
            requires
                0 <= v <= FIXED_ONE,
                s > 0,
        ;
        assert(v * s - 0 * FIXED_ONE == v * s);
        lemma_div_by_multiple(v, s);
    }
}

/// Computes the letterbox geometry of a `w` x `h` image for a canvas of
/// side `side`.
pub fn letterbox_geometry(w: u32, h: u32, side: u32) -> (g: LetterboxGeometry)
    requires
        w > 0,
        h > 0,
        side > 0,
    ensures
        g == geometry_of(w, h, side),
        g.wf(),
        g.offset_x + g.new_width <= side,
        g.offset_y + g.new_height <= side,
{
    if w > h {
        proof {
            assert(side as int * h as int <= side as int * w as int <= 0xffffffff * 0xffffffff)
                by (nonlinear_arith)
                requires
                    h < w,
                    w <= 0xffffffff,
                    side <= 0xffffffff,
            ;
            lemma_div_is_ordered(side as int * h as int, side as int * w as int, w as int);
            lemma_div_by_multiple(side as int, w as int);
        }
        let prod: u64 = side as u64 * h as u64;
        let nh = (prod / w as u64) as u32;
        LetterboxGeometry {
            side,
            src_width: w,
            src_height: h,
            span: w,
            new_width: side,
            new_height: nh,
            offset_x: 0,
            offset_y: (side - nh) / 2,
        }
    } else {
        proof {
            assert(side as int * w as int <= side as int * h as int <= 0xffffffff * 0xffffffff)
                by (nonlinear_arith)
                requires
                    w <= h,
                    h <= 0xffffffff,
                    side <= 0xffffffff,
            ;
            lemma_div_is_ordered(side as int * w as int, side as int * h as int, h as int);
            lemma_div_by_multiple(side as int, h as int);
        }
        let prod: u64 = side as u64 * w as u64;
        let nw = (prod / h as u64) as u32;
        LetterboxGeometry {
            side,
            src_width: w,
            src_height: h,
            span: h,
            new_width: nw,
            new_height: side,
            offset_x: (side - nw) / 2,
            offset_y: 0,
        }
    }
}

/// One axis of the inverse transform.
fn unletterbox_coord(v: u32, offset: u32, new_extent: u32, side: u32) -> (r: u32)
    requires
        v <= FIXED_ONE,
    ensures
        r as int == unletterbox(v as int, offset as int, new_extent as int, side as int),
{
    if new_extent == 0 {
        return 0;
    }
    proof {
        assert(0 <= v as int * side as int <= 0x1000000 * 0xffffffff) by (nonlinear_arith)
            requires
                v <= 0x1000000,
                side <= 0xffffffff,
        ;
        assert(0 <= offset as int * 0x1000000 <= 0xffffffff * 0x1000000) by (nonlinear_arith)
            requires
                offset <= 0xffffffff,
        ;
        assert(0 <= new_extent as int * 0x1000000 <= 0xffffffff * 0x1000000) by (nonlinear_arith)
            requires
                new_extent <= 0xffffffff,
        ;
        lemma_unletterbox_bounds(v as int, offset as int, new_extent as int, side as int);
    }
    let diff: i64 = v as i64 * side as i64 - offset as i64 * FIXED_ONE as i64;
    let hi: i64 = new_extent as i64 * FIXED_ONE as i64;
    let c: i64 = if diff < 0 {
        0
    } else if diff > hi {
        hi
    } else {
        diff
    };
    (c as u64 / new_extent as u64) as u32
}

/// Maps a box `[x1, y1, x2, y2]` normalized to the canvas back to
/// coordinates normalized to the original image.
pub fn letterbox_to_original_coords(bbox: [u32; 4], g: &LetterboxGeometry) -> (r: [u32; 4])
    requires
        g.wf(),
        forall|i: int| 0 <= i < 4 ==> bbox[i] <= FIXED_ONE,
    ensures
        r[0] as int == unletterbox_x(*g, bbox[0] as int),
        r[1] as int == unletterbox_y(*g, bbox[1] as int),
        r[2] as int == unletterbox_x(*g, bbox[2] as int),
        r[3] as int == unletterbox_y(*g, bbox[3] as int),
{
    let x1 = unletterbox_coord(bbox[0], g.offset_x, g.new_width, g.side);
    let y1 = unletterbox_coord(bbox[1], g.offset_y, g.new_height, g.side);
    let x2 = unletterbox_coord(bbox[2], g.offset_x, g.new_width, g.side);
    let y2 = unletterbox_coord(bbox[3], g.offset_y, g.new_height, g.side);
    [x1, y1, x2, y2]
}

} // verus!
