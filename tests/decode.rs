use rf_detr_decode::{
    decode_model_outputs, letterbox_geometry, parse_rf_detr_outputs, CocoClass, DecodeConfig, Tensor,
    FIXED_ONE, LOGIT_THRESHOLD, MAX_DETECTIONS, NUM_CLASS_SLOTS,
};

fn fixed(x: f64) -> i64 {
    (x * FIXED_ONE as f64).round() as i64
}

fn scores(queries: usize, classes: usize) -> Tensor {
    Tensor { shape: vec![1, queries, classes], data: vec![0; queries * classes] }
}

fn boxes(queries: usize, cx: f64, cy: f64, w: f64, h: f64) -> Tensor {
    let mut data = Vec::new();
    for _ in 0..queries {
        data.extend_from_slice(&[fixed(cx), fixed(cy), fixed(w), fixed(h)]);
    }
    Tensor { shape: vec![1, queries, 4], data }
}

fn set(t: &mut Tensor, q: usize, c: usize, v: i64) {
    let n = t.shape[2];
    t.data[q * n + c] = v;
}

#[test]
fn one_confident_query_among_zero_logits() {
    let mut s = scores(5, NUM_CLASS_SLOTS);
    set(&mut s, 3, 1, fixed(10.0));
    let b = boxes(5, 0.5, 0.5, 0.2, 0.2);
    let g = letterbox_geometry(560, 560, 560);
    let r = parse_rf_detr_outputs(&b, &s, &g, &DecodeConfig::coco());
    assert_eq!(r.len(), 1);
    assert_eq!(r[0].class, CocoClass::Person);
    assert_eq!(r[0].logit, fixed(10.0));
    assert_eq!(r[0].bbox, [6710886, 6710886, 10066329, 10066329]);
}

#[test]
fn logit_at_threshold_is_rejected() {
    let s = scores(5, NUM_CLASS_SLOTS);
    let b = boxes(5, 0.5, 0.5, 0.2, 0.2);
    let g = letterbox_geometry(560, 560, 560);
    assert_eq!(LOGIT_THRESHOLD, 0);
    let r = parse_rf_detr_outputs(&b, &s, &g, &DecodeConfig::coco());
    assert!(r.is_empty());
}

#[test]
fn unexpected_class_count_gives_no_detections() {
    let mut s = scores(5, 80);
    set(&mut s, 0, 1, fixed(10.0));
    let b = boxes(5, 0.5, 0.5, 0.2, 0.2);
    let g = letterbox_geometry(560, 560, 560);
    let r = parse_rf_detr_outputs(&b, &s, &g, &DecodeConfig::coco());
    assert!(r.is_empty());
}

#[test]
fn unexpected_box_width_gives_no_detections() {
    let mut s = scores(2, NUM_CLASS_SLOTS);
    set(&mut s, 0, 1, fixed(10.0));
    let b = Tensor { shape: vec![1, 2, 5], data: vec![fixed(0.5); 10] };
    let g = letterbox_geometry(560, 560, 560);
    assert!(parse_rf_detr_outputs(&b, &s, &g, &DecodeConfig::coco()).is_empty());
}

#[test]
fn short_data_gives_no_detections() {
    let mut s = scores(2, NUM_CLASS_SLOTS);
    set(&mut s, 0, 1, fixed(10.0));
    let mut b = boxes(2, 0.5, 0.5, 0.2, 0.2);
    b.data.pop();
    let g = letterbox_geometry(560, 560, 560);
    assert!(parse_rf_detr_outputs(&b, &s, &g, &DecodeConfig::coco()).is_empty());
}

#[test]
fn background_slot_is_never_chosen() {
    let mut s = scores(1, NUM_CLASS_SLOTS);
    set(&mut s, 0, 0, fixed(10.0));
    let b = boxes(1, 0.5, 0.5, 0.2, 0.2);
    let g = letterbox_geometry(560, 560, 560);
    assert!(parse_rf_detr_outputs(&b, &s, &g, &DecodeConfig::coco()).is_empty());
}

#[test]
fn background_slot_is_a_parameter() {
    let mut s = scores(1, NUM_CLASS_SLOTS);
    set(&mut s, 0, 90, fixed(10.0));
    set(&mut s, 0, 3, fixed(2.0));
    let b = boxes(1, 0.5, 0.5, 0.2, 0.2);
    let g = letterbox_geometry(560, 560, 560);
    let cfg = DecodeConfig { background: 90, ..DecodeConfig::coco() };
    let r = parse_rf_detr_outputs(&b, &s, &g, &cfg);
    assert_eq!(r.len(), 1);
    assert_eq!(r[0].class, CocoClass::Car);
}

#[test]
fn best_class_wins_and_first_wins_ties() {
    let mut s = scores(2, NUM_CLASS_SLOTS);
    set(&mut s, 0, 2, fixed(1.0));
    set(&mut s, 0, 18, fixed(3.0));
    set(&mut s, 1, 17, fixed(3.0));
    set(&mut s, 1, 18, fixed(3.0));
    let b = boxes(2, 0.5, 0.5, 0.2, 0.2);
    let g = letterbox_geometry(560, 560, 560);
    let r = parse_rf_detr_outputs(&b, &s, &g, &DecodeConfig::coco());
    assert_eq!(r.len(), 2);
    assert_eq!(r[0].class, CocoClass::Dog);
    assert_eq!(r[1].class, CocoClass::Cat);
}

#[test]
fn id_outside_taxonomy_is_dropped() {
    let mut s = scores(1, NUM_CLASS_SLOTS);
    set(&mut s, 0, 12, fixed(10.0));
    let b = boxes(1, 0.5, 0.5, 0.2, 0.2);
    let g = letterbox_geometry(560, 560, 560);
    assert!(parse_rf_detr_outputs(&b, &s, &g, &DecodeConfig::coco()).is_empty());
}

#[test]
fn empty_box_is_dropped() {
    let mut s = scores(2, NUM_CLASS_SLOTS);
    set(&mut s, 0, 1, fixed(10.0));
    set(&mut s, 1, 1, fixed(10.0));
    let mut b = boxes(2, 0.5, 0.5, 0.2, 0.2);
    b.data[2] = 0;
    b.data[4] = fixed(1.5);
    b.data[5] = fixed(1.5);
    let g = letterbox_geometry(560, 560, 560);
    assert!(parse_rf_detr_outputs(&b, &s, &g, &DecodeConfig::coco()).is_empty());
}

#[test]
fn boxes_are_clamped_to_canvas() {
    let mut s = scores(1, NUM_CLASS_SLOTS);
    set(&mut s, 0, 1, fixed(10.0));
    let b = boxes(1, 0.0, 1.0, 0.5, 0.5);
    let g = letterbox_geometry(560, 560, 560);
    let r = parse_rf_detr_outputs(&b, &s, &g, &DecodeConfig::coco());
    assert_eq!(r.len(), 1);
    assert_eq!(r[0].bbox, [0, FIXED_ONE / 4 * 3, FIXED_ONE / 4, FIXED_ONE]);
}

#[test]
fn at_most_max_detections_queries() {
    let mut s = scores(150, NUM_CLASS_SLOTS);
    for q in 0..150 {
        set(&mut s, q, 1, fixed(5.0));
    }
    let b = boxes(150, 0.5, 0.5, 0.2, 0.2);
    let g = letterbox_geometry(560, 560, 560);
    let r = parse_rf_detr_outputs(&b, &s, &g, &DecodeConfig::coco());
    assert_eq!(r.len(), MAX_DETECTIONS);
}

#[test]
fn detections_are_mapped_to_original_image() {
    let mut s = scores(1, NUM_CLASS_SLOTS);
    set(&mut s, 0, 3, fixed(4.0));
    let b = boxes(1, 0.5, 0.5, 0.5, 0.25);
    let g = letterbox_geometry(1000, 500, 560);
    let r = parse_rf_detr_outputs(&b, &s, &g, &DecodeConfig::coco());
    assert_eq!(r.len(), 1);
    assert_eq!(r[0].bbox, [FIXED_ONE / 4, FIXED_ONE / 4, FIXED_ONE / 4 * 3, FIXED_ONE / 4 * 3]);
}

#[test]
fn output_order_is_found_by_shape() {
    let mut s = scores(4, NUM_CLASS_SLOTS);
    set(&mut s, 2, 5, fixed(3.0));
    let b = boxes(4, 0.5, 0.5, 0.2, 0.2);
    let g = letterbox_geometry(560, 560, 560);
    let cfg = DecodeConfig::coco();
    let a = decode_model_outputs(&b, &s, &g, &cfg);
    let c = decode_model_outputs(&s, &b, &g, &cfg);
    assert_eq!(a.len(), 1);
    assert_eq!(a, c);
    assert_eq!(a[0].class, CocoClass::Airplane);
}

#[test]
fn detections_satisfy_the_invariants() {
    let mut s = scores(20, NUM_CLASS_SLOTS);
    let mut b = boxes(20, 0.5, 0.5, 0.2, 0.2);
    for q in 0..20 {
        set(&mut s, q, 1 + q, fixed(q as f64 - 5.0));
        b.data[4 * q] = fixed(q as f64 / 10.0 - 0.5);
        b.data[4 * q + 2] = fixed(0.05 * q as f64);
    }
    let g = letterbox_geometry(640, 480, 560);
    let r = parse_rf_detr_outputs(&b, &s, &g, &DecodeConfig::coco());
    assert!(!r.is_empty());
    for d in &r {
        assert!(d.logit > LOGIT_THRESHOLD);
        assert!(d.bbox[0] <= d.bbox[2] && d.bbox[2] <= FIXED_ONE);
        assert!(d.bbox[1] <= d.bbox[3] && d.bbox[3] <= FIXED_ONE);
    }
}
