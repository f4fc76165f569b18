use vstd::arithmetic::div_mod::{lemma_fundamental_div_mod, lemma_mod_bound};
use vstd::prelude::*;

use crate::letterbox::{geometry_of, lemma_square_is_identity, letterbox_geometry, LetterboxGeometry};
use crate::raster::{resize_triangle, resized_pixels, Raster};

verus! {

/// Channel value of the padding around the pasted image (a neutral gray).
pub const PADDING_VALUE: u8 = 114;

/// The model input: `planar` holds the letterboxed canvas channel by
/// channel, each channel row by row, and `geometry` how it was placed.
#[derive(Debug, Clone)]
pub struct PreparedInput {
    pub planar: Vec<u8>,
    pub geometry: LetterboxGeometry,
}

/// Value `i` of the planar canvas: channel `i / (side * side)` at row
/// `y` and column `x` of the canvas. Inside the pasted area it is the
/// resized image's pixel, elsewhere the padding.
pub open spec fn letterboxed_value(g: LetterboxGeometry, resized: Seq<u8>, i: int) -> u8 {
    let s = g.side as int;
    let c = i / (s * s);
    let rem = i % (s * s);
    let y = rem / s;
    let x = rem % s;
    if g.offset_x <= x < g.offset_x + g.new_width && g.offset_y <= y < g.offset_y + g.new_height {
        resized[((y - g.offset_y) * g.new_width + (x - g.offset_x)) * 3 + c]
    } else {
        PADDING_VALUE
    }
}

proof fn lemma_split_index(i: int, d: int, k: int)
    requires
        0 <= i < k * d,
        d > 0,
        k > 0,
    ensures
        0 <= i / d < k,
        0 <= i % d < d,
{
    lemma_fundamental_div_mod(i, d);
    lemma_mod_bound(i, d);
    assert(0 <= i / d < k) by (nonlinear_arith)
        requires
            i == d * (i / d) + i % d,
            0 <= i % d < d,
            0 <= i < k * d,
            d > 0,
    ;
}

proof fn lemma_pixel_index(yy: int, xx: int, c: int, nh: int, nw: int)
    requires
        0 <= yy < nh,
        0 <= xx < nw,
        0 <= c < 3,
    ensures
        0 <= (yy * nw + xx) * 3 + c < 3 * nw * nh,
{
    assert(0 <= (yy * nw + xx) * 3 + c < 3 * nw * nh) by (nonlinear_arith)
        requires
            0 <= yy < nh,
            0 <= xx < nw,
            0 <= c < 3,
    ;
}

/// A square image is scaled to fill the whole canvas: no value of the
/// letterboxed input is padding. Value `i`, of channel `c = i / (side *
/// side)` at position `p = i % (side * side)` of the canvas, is channel `c`
/// of pixel `p` of the resized image.
pub proof fn lemma_square_has_no_padding(n: u32, side: u32, resized: Seq<u8>)
    requires
        n > 0,
        side > 0,
    ensures
        forall|i: int|
            0 <= i < 3 * side * side ==> #[trigger] letterboxed_value(geometry_of(n, n, side), resized, i)
                == resized[(i % (side * side)) * 3 + i / (side * side)],
{
    lemma_square_is_identity(n, side);
    let s = side as int;
    assert(s * s > 0) by (nonlinear_arith)
        requires
            s > 0,
    ;
    assert forall|i: int| 0 <= i < 3 * side * side implies #[trigger] letterboxed_value(
        geometry_of(n, n, side),
        resized,
        i,
    ) == resized[(i % (side * side)) * 3 + i / (side * side)] by {
        assert(3 * side * side == 3 * (s * s)) by (nonlinear_arith)
            requires
                s == side,
        ;
        lemma_split_index(i, s * s, 3);
        let rem = i % (s * s);
        lemma_split_index(rem, s, s);
        lemma_fundamental_div_mod(rem, s);
        assert((rem / s) * s + rem % s == rem) by (nonlinear_arith)
            requires
                rem == s * (rem / s) + rem % s,
        ;
    }
}

/// Letterboxes `image` into a `side` x `side` canvas: resized to keep its
/// aspect ratio, centered, padded with gray, and laid out channel-major.
pub fn preprocess_image(image: &Raster, side: u32) -> (r: PreparedInput)
    requires
        image.wf(),
        image.width > 0,
        image.height > 0,
        side > 0,
        3 * side * side <= usize::MAX,
    ensures
        r.geometry == geometry_of(image.width, image.height, side),
        r.planar@.len() == 3 * side * side,
        forall|i: int|
            0 <= i < 3 * side * side ==> #[trigger] r.planar@[i] == letterboxed_value(
                r.geometry,
                resized_pixels(
                    image.data@,
                    image.width,
                    image.height,
                    r.geometry.new_width,
                    r.geometry.new_height,
                ),
                i,
            ),
{
    let g = letterbox_geometry(image.width, image.height, side);
    let nw = g.new_width;
    let nh = g.new_height;
    proof {
        assert(side as int * side as int <= 3 * side * side) by (nonlinear_arith);
        assert(3 * (side as int * side as int) == 3 * side * side) by (nonlinear_arith);
        assert(3 * nw * nh <= 3 * side * side) by (nonlinear_arith)
            requires
                nw <= side,
                nh <= side,
        ;
    }
    let resized = if nw > 0 && nh > 0 {
        resize_triangle(image, nw, nh)
    } else {
        Raster { width: nw, height: nh, data: Vec::new() }
    };
    let ghost target = resized_pixels(image.data@, image.width, image.height, nw, nh);
    let s = side as usize;
    let area = s * s;
    let total = 3 * area;
    let rlen = resized.data.len();
    let mut planar: Vec<u8> = Vec::with_capacity(total);
    let mut i: usize = 0;
    while i < total
        invariant
            i <= total,
            total == 3 * area,
            area == s * s,
            s == side,
            side > 0,
            g == geometry_of(image.width, image.height, side),
            g.offset_x + nw <= side,
            g.offset_y + nh <= side,
            nw == g.new_width,
            nh == g.new_height,
            rlen == resized.data@.len(),
            nw > 0 && nh > 0 ==> resized.data@ == target && rlen == 3 * nw * nh,
            planar@.len() == i,
            forall|j: int| 0 <= j < i ==> #[trigger] planar@[j] == letterboxed_value(g, target, j),
        decreases total - i,
    {
        proof {
            assert(area > 0) by (nonlinear_arith)
                requires
                    area == s * s,
                    s > 0,
            ;
            lemma_split_index(i as int, area as int, 3);
            lemma_split_index((i % area) as int, s as int, s as int);
        }
        let c = i / area;
        let rem = i % area;
        let y = rem / s;
        let x = rem % s;
        let v = if g.offset_x as usize <= x && x < g.offset_x as usize + nw as usize && g.offset_y as usize
            <= y && y < g.offset_y as usize + nh as usize {
            let yy = y - g.offset_y as usize;
            let xx = x - g.offset_x as usize;
            proof {
                lemma_pixel_index(yy as int, xx as int, c as int, nh as int, nw as int);
            }
            resized.data[(yy * nw as usize + xx) * 3 + c]
        } else {
            PADDING_VALUE
        };
        planar.push(v);
        i += 1;
    }
    PreparedInput { planar, geometry: g }
}

} // verus!
