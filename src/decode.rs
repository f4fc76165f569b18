use vstd::arithmetic::div_mod::{lemma_fundamental_div_mod, lemma_mod_bound};
use vstd::prelude::*;

use crate::classes::{class_for_id, CocoClass};
use crate::letterbox::{
    clamp, lemma_unletterbox_bounds, lemma_unletterbox_monotone, letterbox_to_original_coords,
    unletterbox_x, unletterbox_y, LetterboxGeometry, FIXED_ONE,
};

verus! {

/// At most this many queries are examined per image.
pub const MAX_DETECTIONS: usize = 100;

/// Class slots in the score tensor of the bundled models, the no-object
/// slot included.
pub const NUM_CLASS_SLOTS: usize = 91;

/// The no-object slot of the bundled models.
pub const BACKGROUND_SLOT: usize = 0;

/// The default logit threshold. The logistic function is increasing and
/// maps 0 to one half, so a confidence above one half is a logit above 0.
pub const LOGIT_THRESHOLD: i64 = 0;

/// A dense row-major tensor of fixed-point values.
#[derive(Debug, Clone)]
pub struct Tensor {
    pub shape: Vec<usize>,
    pub data: Vec<i64>,
}

/// The parameters of output decoding.
#[derive(Debug, Clone, Copy, PartialEq, Eq, Structural)]
pub struct DecodeConfig {
    /// Expected trailing dimension of the score tensor.
    pub num_classes: usize,
    /// The slot that means "no object"; it is never reported.
    pub background: usize,
    /// A query is kept only if its best logit is strictly above this.
    pub logit_threshold: i64,
    /// Queries with an index at or above this are ignored.
    pub max_detections: usize,
}

impl DecodeConfig {
    /// The configuration of the bundled COCO-trained models.
    pub fn coco() -> (r: DecodeConfig)
        ensures
            r.num_classes == NUM_CLASS_SLOTS,
            r.background == BACKGROUND_SLOT,
            r.logit_threshold == LOGIT_THRESHOLD,
            r.max_detections == MAX_DETECTIONS,
    {
        DecodeConfig {
            num_classes: NUM_CLASS_SLOTS,
            background: BACKGROUND_SLOT,
            logit_threshold: LOGIT_THRESHOLD,
            max_detections: MAX_DETECTIONS,
        }
    }
}

/// One detected object. `bbox` is `[x1, y1, x2, y2]`, normalized to the
/// original image in units of `FIXED_ONE`; `logit` is the class logit
/// whose logistic value is the confidence.
#[derive(Debug, Clone, Copy, PartialEq, Eq)]
pub struct Detection {
    pub bbox: [u32; 4],
    pub logit: i64,
    pub class: CocoClass,
}

/// What a detection holds, as plain values.
pub type DetectionView = (int, int, int, int, i64, CocoClass);

impl Detection {
    pub open spec fn view(&self) -> DetectionView {
        (
            self.bbox[0] as int,
            self.bbox[1] as int,
            self.bbox[2] as int,
            self.bbox[3] as int,
            self.logit,
            self.class,
        )
    }

    /// Corners ordered and inside the normalized range.
    pub open spec fn box_ok(&self) -> bool {
        &&& self.bbox[0] <= self.bbox[2] <= FIXED_ONE
        &&& self.bbox[1] <= self.bbox[3] <= FIXED_ONE
    }
}

/// `t` has shape `[1, Q, last]` for some `Q`, and holds `Q * last` values.
pub open spec fn has_shape3(t: &Tensor, last: usize) -> bool {
    &&& t.shape@.len() == 3
    &&& t.shape@[0] == 1
    &&& t.shape@[2] == last
    &&& t.data@.len() == t.shape@[1] * last
}

pub open spec fn shapes_ok(boxes: &Tensor, scores: &Tensor, cfg: DecodeConfig) -> bool {
    &&& has_shape3(scores, cfg.num_classes)
    &&& has_shape3(boxes, 4)
    &&& scores.shape@[1] == boxes.shape@[1]
}

/// Among slots `0..n` of the row starting at `base`, the background slot
/// left out, the first one with the largest value; -1 if there is none.
pub open spec fn best_slot(data: Seq<i64>, base: int, bg: int, n: nat) -> int
    decreases n,
{
    if n == 0 {
        -1
    } else {
        let b = best_slot(data, base, bg, (n - 1) as nat);
        let c = n - 1;
        if c == bg {
            b
        } else if b < 0 || data[base + c] > data[base + b] {
            c
        } else {
            b
        }
    }
}

/// A corner of a center-form box: `center + signed_extent / 2`, clamped
/// to the canvas. Computed on doubled values so no half is lost before
/// clamping.
pub open spec fn corner(center: int, signed_extent: int) -> int {
    clamp(2 * center + signed_extent, 0, 2 * FIXED_ONE) / 2
}

/// The detection that query `q` yields, if any.
pub open spec fn query_result(
    boxes: &Tensor,
    scores: &Tensor,
    g: LetterboxGeometry,
    cfg: DecodeConfig,
    q: int,
) -> Option<DetectionView> {
    let base = q * cfg.num_classes;
    let b = best_slot(scores.data@, base, cfg.background as int, cfg.num_classes as nat);
    if b < 0 {
        None
    } else {
        let logit = scores.data@[base + b];
        let cx = boxes.data@[4 * q] as int;
        let cy = boxes.data@[4 * q + 1] as int;
        let w = boxes.data@[4 * q + 2] as int;
        let h = boxes.data@[4 * q + 3] as int;
        let x1 = corner(cx, -w);
        let y1 = corner(cy, -h);
        let x2 = corner(cx, w);
        let y2 = corner(cy, h);
        if logit <= cfg.logit_threshold {
            None
        } else if x2 <= x1 || y2 <= y1 {
            None
        } else {
            match class_for_id(b as usize) {
                None => None,
                Some(k) => Some(
                    (
                        unletterbox_x(g, x1),
                        unletterbox_y(g, y1),
                        unletterbox_x(g, x2),
                        unletterbox_y(g, y2),
                        logit,
                        k,
                    ),
                ),
            }
        }
    }
}

/// The detections of queries `0..n`, in query order.
pub open spec fn detections_upto(
    boxes: &Tensor,
    scores: &Tensor,
    g: LetterboxGeometry,
    cfg: DecodeConfig,
    n: nat,
) -> Seq<DetectionView>
    decreases n,
{
    if n == 0 {
        seq![]
    } else {
        let prev = detections_upto(boxes, scores, g, cfg, (n - 1) as nat);
        match query_result(boxes, scores, g, cfg, n - 1) {
            Some(d) => prev.push(d),
            None => prev,
        }
    }
}

pub open spec fn min_nat(a: nat, b: nat) -> nat {
    if a < b {
        a
    } else {
        b
    }
}

/// The decoded detections: none when the shapes are not the expected
/// ones, else those of the first `max_detections` queries.
pub open spec fn decoded(boxes: &Tensor, scores: &Tensor, g: LetterboxGeometry, cfg: DecodeConfig) -> Seq<
    DetectionView,
> {
    if !shapes_ok(boxes, scores, cfg) {
        seq![]
    } else {
        detections_upto(
            boxes,
            scores,
            g,
            cfg,
            min_nat(scores.shape@[1] as nat, cfg.max_detections as nat),
        )
    }
}

/// Whether the tensor's trailing dimension marks it as the box tensor.
pub open spec fn is_box_tensor(t: &Tensor) -> bool {
    t.shape@.len() > 0 && t.shape@.last() == 4
}

proof fn lemma_best_slot_range(data: Seq<i64>, base: int, bg: int, n: nat)
    ensures
        ({
            let b = best_slot(data, base, bg, n);
            b == -1 || (0 <= b < n && b != bg)
        }),
    decreases n,
{
    if n > 0 {
        lemma_best_slot_range(data, base, bg, (n - 1) as nat);
    }
}

proof fn lemma_row_index(q: int, c: int, nq: int, nc: int)
    requires
        0 <= q < nq,
        0 <= c < nc,
    ensures
        0 <= q * nc + c < nq * nc,
        q * nc <= nq * nc,
{
    assert(0 <= q * nc + c < nq * nc) by (nonlinear_arith)
        requires
            0 <= q < nq,
            0 <= c < nc,
    ;
    assert(q * nc <= nq * nc) by (nonlinear_arith)
        requires
            0 <= q < nq,
            0 <= c < nc,
    ;
}

/// Checks that `t` has shape `[1, Q, last]` and holds `Q * last` values.
pub fn tensor_has_shape(t: &Tensor, last: usize) -> (r: bool)
    ensures
        r == has_shape3(t, last),
{
    if t.shape.len() != 3 || t.shape[0] != 1 || t.shape[2] != last {
        return false;
    }
    let n = t.data.len();
    let nq = t.shape[1];
    if last == 0 {
        n == 0
    } else {
        proof {
            let ni = n as int;
            let li = last as int;
            let qi = nq as int;
            lemma_fundamental_div_mod(ni, li);
            lemma_mod_bound(ni, li);
            if ni == qi * li {
                assert(ni % li == 0 && ni / li == qi) by (nonlinear_arith)
                    requires
                        li > 0,
                        ni == qi * li,
                        ni == li * (ni / li) + ni % li,
                        0 <= ni % li < li,
                ;
            }
            if ni % li == 0 && ni / li == qi {
                assert(ni == qi * li) by (nonlinear_arith)
                    requires
                        ni == li * (ni / li) + ni % li,
                        ni % li == 0,
                        ni / li == qi,
                ;
            }
        }
        n % last == 0 && n / last == nq
    }
}

fn best_slot_of(scores: &Tensor, base: usize, bg: usize, nc: usize) -> (r: Option<usize>)
    requires
        base + nc <= scores.data@.len(),
    ensures
        match r {
            Some(b) => best_slot(scores.data@, base as int, bg as int, nc as nat) == b as int,
            None => best_slot(scores.data@, base as int, bg as int, nc as nat) == -1,
        },
{
    let len = scores.data.len();
    let mut best: Option<usize> = None;
    let mut c: usize = 0;
    while c < nc
        invariant
            c <= nc,
            len == scores.data@.len(),
            base + nc <= scores.data@.len(),
            match best {
                Some(b) => best_slot(scores.data@, base as int, bg as int, c as nat) == b as int,
                None => best_slot(scores.data@, base as int, bg as int, c as nat) == -1,
            },
        decreases nc - c,
    {
        proof {
            lemma_best_slot_range(scores.data@, base as int, bg as int, c as nat);
        }
        if c != bg {
            match best {
                None => {
                    best = Some(c);
                },
                Some(b) => {
                    if scores.data[base + c] > scores.data[base + b] {
                        best = Some(c);
                    }
                },
            }
        }
        c += 1;
    }
    best
}

fn corner_of(center: i64, signed_extent: i128) -> (r: u32)
    requires
        -0x8000_0000_0000_0000 <= signed_extent <= 0x8000_0000_0000_0000,
    ensures
        r as int == corner(center as int, signed_extent as int),
        r <= FIXED_ONE,
{
    let t: i128 = 2 * center as i128 + signed_extent;
    let hi: i128 = 2 * FIXED_ONE as i128;
    let c: i128 = if t < 0 {
        0
    } else if t > hi {
        hi
    } else {
        t
    };
    (c as u128 / 2) as u32
}

/// Decodes query `q`: its best foreground class, the threshold, the box
/// and the label lookup, then the inverse letterbox.
fn decode_query(
    boxes: &Tensor,
    scores: &Tensor,
    g: &LetterboxGeometry,
    cfg: &DecodeConfig,
    q: usize,
) -> (r: Option<Detection>)
    requires
        g.wf(),
        shapes_ok(boxes, scores, *cfg),
        q < scores.shape@[1],
    ensures
        match r {
            Some(d) => {
                &&& query_result(boxes, scores, *g, *cfg, q as int) == Some(d.view())
                &&& d.logit > cfg.logit_threshold
                &&& d.box_ok()
            },
            None => query_result(boxes, scores, *g, *cfg, q as int).is_none(),
        },
{
    let nc = cfg.num_classes;
    let nq = scores.shape[1];
    if nc == 0 {
        return None;
    }
    // Both lengths are `usize` values, which bounds every index below.
    let _score_len = scores.data.len();
    let _box_len = boxes.data.len();
    proof {
        lemma_row_index(q as int, 0, nq as int, nc as int);
        lemma_row_index(q as int, nc - 1, nq as int, nc as int);
        lemma_row_index(q as int, 3, nq as int, 4);
    }
    let base = q * nc;
    let best = best_slot_of(scores, base, cfg.background, nc);
    let b = match best {
        None => {
            return None;
        },
        Some(b) => b,
    };
    proof {
        lemma_best_slot_range(scores.data@, base as int, cfg.background as int, nc as nat);
        lemma_row_index(q as int, b as int, nq as int, nc as int);
    }
    let logit = scores.data[base + b];
    let cx = boxes.data[4 * q];
    let cy = boxes.data[4 * q + 1];
    let w = boxes.data[4 * q + 2];
    let h = boxes.data[4 * q + 3];
    let x1 = corner_of(cx, -(w as i128));
    let y1 = corner_of(cy, -(h as i128));
    let x2 = corner_of(cx, w as i128);
    let y2 = corner_of(cy, h as i128);
    if logit <= cfg.logit_threshold {
        return None;
    }
    if x2 <= x1 || y2 <= y1 {
        return None;
    }
    match CocoClass::from_id(b) {
        None => None,
        Some(class) => {
            let bbox = letterbox_to_original_coords([x1, y1, x2, y2], g);
            proof {
                let (s, nw, nh) = (g.side as int, g.new_width as int, g.new_height as int);
                lemma_unletterbox_monotone(x1 as int, x2 as int, g.offset_x as int, nw, s);
                lemma_unletterbox_monotone(y1 as int, y2 as int, g.offset_y as int, nh, s);
                lemma_unletterbox_bounds(x2 as int, g.offset_x as int, nw, s);
                lemma_unletterbox_bounds(y2 as int, g.offset_y as int, nh, s);
            }
            Some(Detection { bbox, logit, class })
        },
    }
}

/// Decodes the two raw output tensors of the detector: `boxes` of shape
/// `[1, Q, 4]` (center x, center y, width, height, normalized to the
/// canvas) and `scores` of shape `[1, Q, C]` (class logits). Queries are
/// taken in index order; when either shape is not the expected one the
/// result is empty.
pub fn parse_rf_detr_outputs(
    boxes: &Tensor,
    scores: &Tensor,
    g: &LetterboxGeometry,
    cfg: &DecodeConfig,
) -> (r: Vec<Detection>)
    requires
        g.wf(),
    ensures
        r@.len() == decoded(boxes, scores, *g, *cfg).len(),
        forall|i: int| 0 <= i < r@.len() ==> #[trigger] r@[i].view() == decoded(boxes, scores, *g, *cfg)[i],
        !shapes_ok(boxes, scores, *cfg) ==> r@.len() == 0,
        r@.len() <= cfg.max_detections,
        forall|i: int| 0 <= i < r@.len() ==> #[trigger] r@[i].logit > cfg.logit_threshold,
        forall|i: int| 0 <= i < r@.len() ==> #[trigger] r@[i].box_ok(),
{
    let mut out: Vec<Detection> = Vec::new();
    if !tensor_has_shape(scores, cfg.num_classes) || !tensor_has_shape(boxes, 4) || scores.shape[1]
        != boxes.shape[1] {
        return out;
    }
    let nq = scores.shape[1];
    let n = if nq < cfg.max_detections {
        nq
    } else {
        cfg.max_detections
    };
    let mut q: usize = 0;
    while q < n
        invariant
            q <= n,
            n <= nq,
            n <= cfg.max_detections,
            nq == scores.shape@[1],
            g.wf(),
            shapes_ok(boxes, scores, *cfg),
            out@.len() == detections_upto(boxes, scores, *g, *cfg, q as nat).len(),
            out@.len() <= q,
            forall|i: int|
                0 <= i < out@.len() ==> #[trigger] out@[i].view() == detections_upto(
                    boxes,
                    scores,
                    *g,
                    *cfg,
                    q as nat,
                )[i],
            forall|i: int| 0 <= i < out@.len() ==> #[trigger] out@[i].logit > cfg.logit_threshold,
            forall|i: int| 0 <= i < out@.len() ==> #[trigger] out@[i].box_ok(),
        decreases n - q,
    {
        let d = decode_query(boxes, scores, g, cfg, q);
        match d {
            Some(det) => {
                out.push(det);
            },
            None => {},
        }
        q += 1;
    }
    out
}

/// Decodes the detector's two outputs whatever order they come in: the
/// one whose trailing dimension is 4 is taken as the box tensor (the first
/// if both are), the other as the score tensor.
pub fn decode_model_outputs(
    first: &Tensor,
    second: &Tensor,
    g: &LetterboxGeometry,
    cfg: &DecodeConfig,
) -> (r: Vec<Detection>)
    requires
        g.wf(),
    ensures
        ({
            let expected = if is_box_tensor(first) {
                decoded(first, second, *g, *cfg)
            } else {
                decoded(second, first, *g, *cfg)
            };
            &&& r@.len() == expected.len()
            &&& forall|i: int| 0 <= i < r@.len() ==> #[trigger] r@[i].view() == expected[i]
        }),
        r@.len() <= cfg.max_detections,
        forall|i: int| 0 <= i < r@.len() ==> #[trigger] r@[i].logit > cfg.logit_threshold,
        forall|i: int| 0 <= i < r@.len() ==> #[trigger] r@[i].box_ok(),
{
    let n = first.shape.len();
    if n > 0 && first.shape[n - 1] == 4 {
        parse_rf_detr_outputs(first, second, g, cfg)
    } else {
        parse_rf_detr_outputs(second, first, g, cfg)
    }
}

} // verus!
