use vstd::prelude::*;

use crate::letterbox::geometry_of;
use crate::preprocess::{letterboxed_value, preprocess_image, PreparedInput};
use crate::raster::{decode_rgb, decoded_size, resized_pixels, Raster};

verus! {

/// Why an image could not be turned into model input.
#[derive(Debug)]
pub enum DetectError {
    /// The bytes are not an image the decoder understands; the decoder's
    /// own error is kept.
    Decode(image::ImageError),
    /// The image decoded but has no pixels.
    EmptyImage,
}

/// Decodes `image_data` and letterboxes it for a `side` x `side` model
/// input. Returns the decoded image, for drawing on later, with the input.
pub fn prepare_input(image_data: &[u8], side: u32) -> (r: Result<(Raster, PreparedInput), DetectError>)
    requires
        side > 0,
        3 * side * side <= usize::MAX,
    ensures
        match r {
            Ok((img, p)) => {
                &&& decoded_size(image_data@) == Some((img.width, img.height))
                &&& img.wf()
                &&& img.width > 0
                &&& img.height > 0
                &&& p.geometry == geometry_of(img.width, img.height, side)
                &&& p.planar@.len() == 3 * side * side
                &&& forall|i: int|
                    0 <= i < 3 * side * side ==> #[trigger] p.planar@[i] == letterboxed_value(
                        p.geometry,
                        resized_pixels(
                            img.data@,
                            img.width,
                            img.height,
                            p.geometry.new_width,
                            p.geometry.new_height,
                        ),
                        i,
                    )
            },
            Err(DetectError::EmptyImage) => match decoded_size(image_data@) {
                Some(d) => d.0 == 0 || d.1 == 0,
                None => false,
            },
            Err(DetectError::Decode(_)) => decoded_size(image_data@).is_none(),
        },
        match decoded_size(image_data@) {
            Some(d) => d.0 > 0 && d.1 > 0 ==> r.is_ok(),
            None => r.is_err(),
        },
{
    let img = match decode_rgb(image_data) {
        Ok(img) => img,
        Err(e) => {
            return Err(DetectError::Decode(e));
        },
    };
    if img.width == 0 || img.height == 0 {
        return Err(DetectError::EmptyImage);
    }
    let input = preprocess_image(&img, side);
    Ok((img, input))
}

} // verus!
