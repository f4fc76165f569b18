use rf_detr_decode::{
    detection_rect, draw_detections, get_model_data, get_model_name, prepare_input, preprocess_image,
    CocoClass, DetectError, Detection, ModelType, Raster, FIXED_ONE, PADDING_VALUE,
};

fn uniform(width: u32, height: u32, rgb: [u8; 3]) -> Raster {
    let mut data = Vec::new();
    for _ in 0..width * height {
        data.extend_from_slice(&rgb);
    }
    Raster { width, height, data }
}

fn fixed(x: f64) -> u32 {
    (x * FIXED_ONE as f64).round() as u32
}

#[test]
fn rect_of_small_box_on_hundred_pixel_image() {
    let b = [fixed(0.1), fixed(0.1), fixed(0.2), fixed(0.2)];
    let (x, y, w, h) = detection_rect(b, 100, 100);
    assert_eq!((x, y), (10, 10));
    assert!(w >= 1 && h >= 1);
    assert_eq!((w, h), (10, 10));
}

#[test]
fn degenerate_rect_is_one_pixel() {
    let b = [fixed(0.5), fixed(0.5), fixed(0.5), fixed(0.5)];
    assert_eq!(detection_rect(b, 100, 100), (50, 50, 1, 1));
}

#[test]
fn drawing_outlines_the_box_in_red() {
    let mut img = uniform(100, 100, [0, 0, 0]);
    let d = Detection {
        bbox: [fixed(0.1), fixed(0.1), fixed(0.2), fixed(0.2)],
        logit: 1,
        class: CocoClass::Person,
    };
    draw_detections(&mut img, &vec![d]);
    assert_eq!(img.width, 100);
    assert_eq!(img.data.len(), 30000);
    let px = |x: usize, y: usize| img.data[(y * 100 + x) * 3..(y * 100 + x) * 3 + 3].to_vec();
    assert_eq!(px(10, 10), vec![255, 0, 0]);
    assert_eq!(px(19, 10), vec![255, 0, 0]);
    assert_eq!(px(10, 19), vec![255, 0, 0]);
    assert_eq!(px(19, 19), vec![255, 0, 0]);
    assert_eq!(px(15, 15), vec![0, 0, 0]);
    assert_eq!(px(20, 20), vec![0, 0, 0]);
    assert_eq!(px(50, 50), vec![0, 0, 0]);
}

#[test]
fn preprocess_pads_and_splits_channels() {
    let img = uniform(4, 2, [10, 20, 30]);
    let p = preprocess_image(&img, 8);
    assert_eq!(p.geometry.new_width, 8);
    assert_eq!(p.geometry.new_height, 4);
    assert_eq!(p.geometry.offset_y, 2);
    assert_eq!(p.planar.len(), 3 * 64);
    for c in 0..3 {
        assert_eq!(p.planar[c * 64], PADDING_VALUE);
        assert_eq!(p.planar[c * 64 + 7 * 8 + 7], PADDING_VALUE);
        assert_eq!(p.planar[c * 64 + 3 * 8 + 4], [10, 20, 30][c]);
    }
}

#[test]
fn preprocess_square_image_has_no_padding() {
    let img = uniform(3, 3, [7, 8, 9]);
    let p = preprocess_image(&img, 6);
    assert_eq!(p.geometry.offset_x, 0);
    assert_eq!(p.geometry.offset_y, 0);
    assert!(p.planar[..36].iter().all(|&v| v == 7));
    assert!(p.planar[72..].iter().all(|&v| v == 9));
}

#[test]
fn box_touching_the_edge_is_drawn_inside_the_image() {
    let mut img = uniform(10, 10, [0, 0, 0]);
    let d = Detection { bbox: [0, 0, FIXED_ONE, FIXED_ONE], logit: 1, class: CocoClass::Dog };
    assert_eq!(detection_rect(d.bbox, 10, 10), (0, 0, 10, 10));
    draw_detections(&mut img, &vec![d]);
    assert_eq!(img.data[..3], [255, 0, 0]);
    assert_eq!(img.data[(9 * 10 + 9) * 3..], [255, 0, 0]);
    assert_eq!(img.data[(5 * 10 + 5) * 3..(5 * 10 + 5) * 3 + 3], [0, 0, 0]);
}

#[test]
fn empty_input_is_a_decode_error() {
    assert!(matches!(prepare_input(&[], 560), Err(DetectError::Decode(_))));
}

#[test]
fn undecodable_bytes_are_a_decode_error() {
    let r = prepare_input(&[1, 2, 3, 4, 5], 560);
    assert!(matches!(r, Err(DetectError::Decode(_))));
}

#[test]
fn png_bytes_are_decoded_and_letterboxed() {
    let mut buf = Vec::new();
    let img = image::RgbImage::from_pixel(20, 10, image::Rgb([200, 100, 50]));
    img.write_to(&mut std::io::Cursor::new(&mut buf), image::ImageFormat::Png).unwrap();
    let (raster, p) = match prepare_input(&buf, 40) {
        Ok(v) => v,
        Err(e) => panic!("{:?}", e),
    };
    assert_eq!((raster.width, raster.height), (20, 10));
    assert_eq!(raster.data[..3], [200, 100, 50]);
    assert_eq!(p.geometry.new_height, 20);
    assert_eq!(p.geometry.offset_y, 10);
    assert_eq!(p.planar[20 * 40 + 20], 200);
    assert_eq!(p.planar[1600 + 20 * 40 + 20], 100);
    assert_eq!(p.planar[0], PADDING_VALUE);
}

#[test]
fn model_table_lookups() {
    assert_eq!(get_model_name(ModelType::Original), "RF-DETR Original (108 MB)");
    assert_eq!(get_model_name(ModelType::Q4F16), "RF-DETR Q4F16 (20.1 MB)");
    assert_eq!(get_model_data(ModelType::FP16), "assets/models/model_fp16.onnx");
}

#[test]
fn class_lookup_fails_closed() {
    assert_eq!(CocoClass::from_id(0), None);
    assert_eq!(CocoClass::from_id(1), Some(CocoClass::Person));
    assert_eq!(CocoClass::from_id(12), None);
    assert_eq!(CocoClass::from_id(90), Some(CocoClass::Toothbrush));
    assert_eq!(CocoClass::from_id(91), None);
    assert_eq!(CocoClass::TrafficLight.name(), "traffic light");
    assert_eq!(CocoClass::Person.name(), "person");
}

#[test]
fn model_names_parse_in_any_case() {
    assert_eq!(ModelType::from_name("FP16"), Some(ModelType::FP16));
    assert_eq!(ModelType::from_name("q4f16"), Some(ModelType::Q4F16));
    assert_eq!(ModelType::from_name("Original"), Some(ModelType::Original));
    assert_eq!(ModelType::from_name("q8"), None);
    assert_eq!(ModelType::from_lowercase_name("bnb4"), Some(ModelType::BNB4));
    assert_eq!(ModelType::from_lowercase_name("BNB4"), None);
}
