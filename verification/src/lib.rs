//! Grayscale conversion of RGBA pixel buffers and Code 128 detection on the
//! result.
//!
//! [`luma`] turns interleaved RGBA bytes into one luma byte per pixel.
//! [`detect`] hands a luma buffer to the barcode detector.
//! [`decode`] joins the two: from what an image source returned to the decoded
//! text, or the empty string.

pub mod decode;
pub mod detect;
pub mod luma;

pub use decode::{decode_barcode, decode_rgba};
pub use detect::{decode_luma, found_text, is_within_max_side, MAX_SIDE};
pub use luma::{convert_image_to_luma, luma_of_pixel};
