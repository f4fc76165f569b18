use rf_detr_decode::{letterbox_geometry, letterbox_to_original_coords, FIXED_ONE, MODEL_INPUT_SIZE};

#[test]
fn wide_image_geometry() {
    let g = letterbox_geometry(1000, 500, 560);
    assert_eq!(g.new_width, 560);
    assert_eq!(g.new_height, 280);
    assert_eq!(g.offset_x, 0);
    assert_eq!(g.offset_y, 140);
    assert_eq!(g.span, 1000);
}

#[test]
fn tall_image_geometry() {
    let g = letterbox_geometry(500, 1000, 560);
    assert_eq!(g.new_width, 280);
    assert_eq!(g.new_height, 560);
    assert_eq!(g.offset_x, 140);
    assert_eq!(g.offset_y, 0);
}

#[test]
fn square_image_fills_canvas() {
    let g = letterbox_geometry(100, 100, MODEL_INPUT_SIZE);
    assert_eq!(g.new_width, MODEL_INPUT_SIZE);
    assert_eq!(g.new_height, MODEL_INPUT_SIZE);
    assert_eq!(g.offset_x, 0);
    assert_eq!(g.offset_y, 0);
}

#[test]
fn square_image_of_canvas_size_is_identity() {
    let g = letterbox_geometry(560, 560, 560);
    assert_eq!(g.span, g.side);
    assert_eq!(g.offset_x, 0);
    assert_eq!(g.offset_y, 0);
    let b = [0, 12345, FIXED_ONE / 3, FIXED_ONE];
    assert_eq!(letterbox_to_original_coords(b, &g), b);
}

#[test]
fn inverse_removes_padding_and_scale() {
    let g = letterbox_geometry(1000, 500, 560);
    let b = [FIXED_ONE / 4, FIXED_ONE / 2, FIXED_ONE / 2, FIXED_ONE / 4 * 3];
    let r = letterbox_to_original_coords(b, &g);
    assert_eq!(r, [FIXED_ONE / 4, FIXED_ONE / 2, FIXED_ONE / 2, FIXED_ONE]);
}

#[test]
fn inverse_clamps_padding_to_image_edge() {
    let g = letterbox_geometry(1000, 500, 560);
    let r = letterbox_to_original_coords([0, 0, FIXED_ONE, FIXED_ONE / 8], &g);
    assert_eq!(r, [0, 0, FIXED_ONE, 0]);
}

#[test]
fn round_trip_of_a_point() {
    // A point at 3/10 of the height of a 1000 x 500 image sits at canvas
    // row 140 + 0.3 * 280 = 224, that is 0.4 of the canvas side.
    let g = letterbox_geometry(1000, 500, 560);
    let canvas = FIXED_ONE / 5 * 2;
    let r = letterbox_to_original_coords([0, canvas, 0, canvas], &g);
    let expected = (FIXED_ONE as u64 * 3 / 10) as u32;
    assert_eq!(r[1], expected);
}

#[test]
fn pasted_rows_map_back_to_whole_image() {
    // 1000 x 501 resizes to 560 x 280 rows (not 280.56), pasted at row 140:
    // canvas rows 140 and 420 are the image's top and bottom edges.
    let g = letterbox_geometry(1000, 501, 560);
    assert_eq!((g.new_height, g.offset_y), (280, 140));
    let r = letterbox_to_original_coords([0, FIXED_ONE / 4, FIXED_ONE, FIXED_ONE / 4 * 3], &g);
    assert_eq!(r, [0, 0, FIXED_ONE, FIXED_ONE]);
}

#[test]
fn pasted_columns_map_back_to_whole_image() {
    // 300 x 700 resizes to 240 columns, pasted at column 160.
    let g = letterbox_geometry(300, 700, 560);
    assert_eq!((g.new_width, g.offset_x), (240, 160));
    let r = letterbox_to_original_coords([FIXED_ONE / 7 * 2, 0, FIXED_ONE / 7 * 5, FIXED_ONE], &g);
    assert!(r[0] == 0 && r[1] == 0 && r[3] == FIXED_ONE);
    assert!(FIXED_ONE - r[2] <= 2);
}
