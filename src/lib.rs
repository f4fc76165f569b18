//! Pre- and post-processing for a DETR-style object detector.
//!
//! An image is letterboxed into the detector's square input; the raw
//! outputs (class logits and center-form boxes per query) are decoded into
//! detections placed on the original image; the detections can be drawn
//! back onto it. Coordinates, box sizes and logits are carried as
//! fixed-point integers in which `FIXED_ONE` stands for 1.0.
pub mod classes;
pub mod decode;
pub mod letterbox;
pub mod model;
pub mod pipeline;
pub mod preprocess;
pub mod raster;
pub mod render;

pub use classes::CocoClass;
pub use decode::{
    decode_model_outputs, parse_rf_detr_outputs, tensor_has_shape, DecodeConfig, Detection, Tensor,
    BACKGROUND_SLOT, LOGIT_THRESHOLD, MAX_DETECTIONS, NUM_CLASS_SLOTS,
};
pub use letterbox::{
    letterbox_geometry, letterbox_to_original_coords, LetterboxGeometry, FIXED_ONE, MODEL_INPUT_SIZE,
};
pub use model::{get_model_data, get_model_name, ModelType, MODEL_NAMES};
pub use pipeline::{prepare_input, DetectError};
pub use preprocess::{preprocess_image, PreparedInput, PADDING_VALUE};
pub use raster::{Raster, MAX_DRAW_EXTENT};
pub use render::{detection_rect, draw_detections};
