use vstd::prelude::*;

verus! {

/// The pretrained weight variants of the detector.
#[derive(Debug, Clone, Copy, PartialEq, Eq, Structural)]
pub enum ModelType {
    /// Full-precision weights (108 MB).
    Original,
    /// Half-precision weights (55.2 MB).
    FP16,
    /// Signed 8-bit quantized weights (29.6 MB).
    INT8,
    /// Unsigned 8-bit quantized weights (29.6 MB).
    UINT8,
    /// Dynamically quantized weights (29.6 MB).
    Quantized,
    /// 4-bit quantized weights (25.3 MB).
    Q4,
    /// 4-bit weights with half-precision activations (20.1 MB).
    Q4F16,
    /// BitsAndBytes 4-bit weights (23.8 MB).
    BNB4,
}

/// Display name of each variant.
pub open spec fn model_name(m: ModelType) -> Seq<char> {
    match m {
        ModelType::Original => "RF-DETR Original (108 MB)"@,
        ModelType::FP16 => "RF-DETR FP16 (55.2 MB)"@,
        ModelType::INT8 => "RF-DETR INT8 (29.6 MB)"@,
        ModelType::UINT8 => "RF-DETR UINT8 (29.6 MB)"@,
        ModelType::Quantized => "RF-DETR Quantized (29.6 MB)"@,
        ModelType::Q4 => "RF-DETR Q4 (25.3 MB)"@,
        ModelType::Q4F16 => "RF-DETR Q4F16 (20.1 MB)"@,
        ModelType::BNB4 => "RF-DETR BNB4 (23.8 MB)"@,
    }
}

/// Location of each variant's serialized weights, relative to the
/// directory the program runs from.
pub open spec fn model_asset(m: ModelType) -> Seq<char> {
    match m {
        ModelType::Original => "assets/models/model.onnx"@,
        ModelType::FP16 => "assets/models/model_fp16.onnx"@,
        ModelType::INT8 => "assets/models/model_int8.onnx"@,
        ModelType::UINT8 => "assets/models/model_uint8.onnx"@,
        ModelType::Quantized => "assets/models/model_quantized.onnx"@,
        ModelType::Q4 => "assets/models/model_q4.onnx"@,
        ModelType::Q4F16 => "assets/models/model_q4f16.onnx"@,
        ModelType::BNB4 => "assets/models/model_bnb4.onnx"@,
    }
}

/// Returns the display name of a model variant.
pub fn get_model_name(model_type: ModelType) -> (r: &'static str)
    ensures
        r@ == model_name(model_type),
{
    match model_type {
        ModelType::Original => "RF-DETR Original (108 MB)",
        ModelType::FP16 => "RF-DETR FP16 (55.2 MB)",
        ModelType::INT8 => "RF-DETR INT8 (29.6 MB)",
        ModelType::UINT8 => "RF-DETR UINT8 (29.6 MB)",
        ModelType::Quantized => "RF-DETR Quantized (29.6 MB)",
        ModelType::Q4 => "RF-DETR Q4 (25.3 MB)",
        ModelType::Q4F16 => "RF-DETR Q4F16 (20.1 MB)",
        ModelType::BNB4 => "RF-DETR BNB4 (23.8 MB)",
    }
}

/// Returns where the serialized weights of a model variant are stored.
pub fn get_model_data(model_type: ModelType) -> (r: &'static str)
    ensures
        r@ == model_asset(model_type),
{
    match model_type {
        ModelType::Original => "assets/models/model.onnx",
        ModelType::FP16 => "assets/models/model_fp16.onnx",
        ModelType::INT8 => "assets/models/model_int8.onnx",
        ModelType::UINT8 => "assets/models/model_uint8.onnx",
        ModelType::Quantized => "assets/models/model_quantized.onnx",
        ModelType::Q4 => "assets/models/model_q4.onnx",
        ModelType::Q4F16 => "assets/models/model_q4f16.onnx",
        ModelType::BNB4 => "assets/models/model_bnb4.onnx",
    }
}

/// The variant that a lowercase command-line name selects.
pub open spec fn model_for_name(name: Seq<char>) -> Option<ModelType> {
    if name == "original"@ {
        Some(ModelType::Original)
    } else if name == "fp16"@ {
        Some(ModelType::FP16)
    } else if name == "int8"@ {
        Some(ModelType::INT8)
    } else if name == "uint8"@ {
        Some(ModelType::UINT8)
    } else if name == "quantized"@ {
        Some(ModelType::Quantized)
    } else if name == "q4"@ {
        Some(ModelType::Q4)
    } else if name == "q4f16"@ {
        Some(ModelType::Q4F16)
    } else if name == "bnb4"@ {
        Some(ModelType::BNB4)
    } else {
        None
    }
}

/// The lowercase form of a text.
pub uninterp spec fn lower_of(s: Seq<char>) -> Seq<char>;

/// Relies on `str::to_lowercase`: the lowercase form depends on the
/// characters alone.
#[verifier::external_body]
fn lowercase(s: &str) -> (r: String)
    ensures
        r@ == lower_of(s@),
{
    s.to_lowercase()
}

fn same_text(a: &str, b: &str) -> (r: bool)
    ensures
        r == (a@ == b@),
{
    a.to_owned() == b.to_owned()
}

/// The names accepted on the command line, in the order of the variants.
pub const MODEL_NAMES: &'static str = "original, fp16, int8, uint8, quantized, q4, q4f16, bnb4";

impl ModelType {
    /// Selects a variant by its name, already in lowercase.
    pub fn from_lowercase_name(name: &str) -> (r: Option<ModelType>)
        ensures
            r == model_for_name(name@),
    {
        if same_text(name, "original") {
            Some(ModelType::Original)
        } else if same_text(name, "fp16") {
            Some(ModelType::FP16)
        } else if same_text(name, "int8") {
            Some(ModelType::INT8)
        } else if same_text(name, "uint8") {
            Some(ModelType::UINT8)
        } else if same_text(name, "quantized") {
            Some(ModelType::Quantized)
        } else if same_text(name, "q4") {
            Some(ModelType::Q4)
        } else if same_text(name, "q4f16") {
            Some(ModelType::Q4F16)
        } else if same_text(name, "bnb4") {
            Some(ModelType::BNB4)
        } else {
            None
        }
    }

    /// Selects a variant by its name, in any letter case.
    pub fn from_name(name: &str) -> (r: Option<ModelType>)
        ensures
            r == model_for_name(lower_of(name@)),
    {
        let lowered = lowercase(name);
        ModelType::from_lowercase_name(lowered.as_str())
    }
}

} // verus!
