use vstd::prelude::*;

use crate::decode::Detection;
use crate::letterbox::FIXED_ONE;
use crate::raster::{draw_outline, outlined_pixels, Raster, MAX_DRAW_EXTENT};

verus! {

/// Outline color of a detection: red.
pub open spec fn outline_color() -> Seq<u8> {
    seq![255u8, 0u8, 0u8]
}

/// A normalized coordinate scaled to pixels and truncated, at most
/// `extent`. Half a pixel's worth of fixed-point units is added first, so
/// that a coordinate such as 0.2, which has no exact fixed-point value and
/// is stored just below it, still lands on its pixel.
pub open spec fn to_pixels(v: int, extent: int) -> int {
    let p = (v * extent + extent / 2) / FIXED_ONE as int;
    if p > extent {
        extent
    } else {
        p
    }
}

/// The rectangle `(left, top, width, height)` drawn for a normalized box
/// on a `width` x `height` image; it is at least one pixel each way.
pub open spec fn rect_for(bbox: [u32; 4], width: u32, height: u32) -> (int, int, int, int) {
    let x1 = to_pixels(bbox[0] as int, width as int);
    let y1 = to_pixels(bbox[1] as int, height as int);
    let x2 = to_pixels(bbox[2] as int, width as int);
    let y2 = to_pixels(bbox[3] as int, height as int);
    (x1, y1, if x2 - x1 < 1 { 1 } else { x2 - x1 }, if y2 - y1 < 1 { 1 } else { y2 - y1 })
}

/// The pixels after the outlines of `dets` are drawn in order.
pub open spec fn drawn(pixels: Seq<u8>, width: u32, height: u32, dets: Seq<Detection>) -> Seq<u8>
    decreases dets.len(),
{
    if dets.len() == 0 {
        pixels
    } else {
        let prev = drawn(pixels, width, height, dets.drop_last());
        let r = rect_for(dets.last().bbox, width, height);
        outlined_pixels(prev, width, r.0, r.1, r.2, r.3, outline_color())
    }
}

pub open spec fn bbox_in_range(bbox: [u32; 4]) -> bool {
    forall|k: int| 0 <= k < 4 ==> bbox[k] <= FIXED_ONE
}

fn scale_coord(v: u32, extent: u32) -> (r: u32)
    requires
        v <= FIXED_ONE,
        extent <= MAX_DRAW_EXTENT,
    ensures
        r as int == to_pixels(v as int, extent as int),
        r <= extent,
{
    proof {
        assert(v as int * extent as int <= 0x100_0000 * 0x100_0000) by (nonlinear_arith)
            requires
                v <= 0x100_0000,
                extent <= 0x100_0000,
        ;
    }
    let p = (v as u64 * extent as u64 + extent as u64 / 2) / FIXED_ONE as u64;
    if p > extent as u64 {
        extent
    } else {
        p as u32
    }
}

/// The pixel rectangle `(left, top, width, height)` of a normalized box on
/// a `width` x `height` image: corners scaled and truncated, the size at
/// least one pixel each way.
pub fn detection_rect(bbox: [u32; 4], width: u32, height: u32) -> (r: (i32, i32, u32, u32))
    requires
        bbox_in_range(bbox),
        width <= MAX_DRAW_EXTENT,
        height <= MAX_DRAW_EXTENT,
    ensures
        (r.0 as int, r.1 as int, r.2 as int, r.3 as int) == rect_for(bbox, width, height),
        0 <= r.0 <= width,
        0 <= r.1 <= height,
        r.0 + r.2 <= width + 1,
        r.1 + r.3 <= height + 1,
{
    let x1 = scale_coord(bbox[0], width);
    let y1 = scale_coord(bbox[1], height);
    let x2 = scale_coord(bbox[2], width);
    let y2 = scale_coord(bbox[3], height);
    let w: u32 = if x2 <= x1 {
        1
    } else {
        x2 - x1
    };
    let h: u32 = if y2 <= y1 {
        1
    } else {
        y2 - y1
    };
    (x1 as i32, y1 as i32, w, h)
}

/// Draws the outline of each detection's box on `image`, in order.
pub fn draw_detections(image: &mut Raster, detections: &Vec<Detection>)
    requires
        old(image).wf(),
        old(image).width <= MAX_DRAW_EXTENT,
        old(image).height <= MAX_DRAW_EXTENT,
        forall|i: int| 0 <= i < detections@.len() ==> bbox_in_range(#[trigger] detections@[i].bbox),
    ensures
        final(image).width == old(image).width,
        final(image).height == old(image).height,
        final(image).wf(),
        final(image).data@ == drawn(
            old(image).data@,
            old(image).width,
            old(image).height,
            detections@,
        ),
{
    let ghost start = image.data@;
    let color: [u8; 3] = [255, 0, 0];
    assert(color@ =~= outline_color());
    let mut i: usize = 0;
    while i < detections.len()
        invariant
            i <= detections@.len(),
            image.wf(),
            image.width == old(image).width,
            image.height == old(image).height,
            image.width <= MAX_DRAW_EXTENT,
            image.height <= MAX_DRAW_EXTENT,
            start == old(image).data@,
            color@ == outline_color(),
            forall|j: int| 0 <= j < detections@.len() ==> bbox_in_range(#[trigger] detections@[j].bbox),
            image.data@ == drawn(start, image.width, image.height, detections@.take(i as int)),
        decreases detections@.len() - i,
    {
        let d = detections[i];
        let r = detection_rect(d.bbox, image.width, image.height);
        draw_outline(image, r.0, r.1, r.2, r.3, color);
        proof {
            let next = detections@.take(i + 1);
            assert(next.drop_last() =~= detections@.take(i as int));
            assert(next.last() == d);
        }
        i += 1;
    }
    proof {
        assert(detections@.take(detections@.len() as int) =~= detections@);
    }
}

} // verus!
