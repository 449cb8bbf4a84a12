//! The decode entry point: from the pixels that an image source returned to
//! the text of the barcode in them.
//!
//! Every failure ends in the same result, the empty string: the image source
//! gave no pixels, the pixels do not fill the rectangle asked for, or the
//! detector found no Code 128 barcode.

use crate::detect::{
    code128_text, decode_luma, fits_dimensions, text_or_empty, within_max_side,
};
use crate::luma::{
    convert_image_to_luma, lemma_trailing_bytes_ignored, luma_of, pixel_count, whole_pixels,
};
use vstd::prelude::*;

verus! {

/// The bytes of an optional buffer.
pub open spec fn pixels_view(pixels: Option<Vec<u8>>) -> Option<Seq<u8>> {
    match pixels {
        Some(data) => Some(data@),
        None => None,
    }
}

/// The text of a scan of an RGBA buffer: what the detector reads in its luma
/// buffer, or the empty string.
pub open spec fn rgba_text(data: Seq<u8>, width: u32, height: u32) -> Seq<char> {
    text_or_empty(code128_text(luma_of(data), width, height))
}

/// The text of a scan, given what the image source returned: the empty string
/// where it returned no pixels, else the text of the RGBA buffer.
pub open spec fn scan_text(pixels: Option<Seq<u8>>, width: u32, height: u32) -> Seq<char> {
    match pixels {
        Some(data) => rgba_text(data, width, height),
        None => Seq::empty(),
    }
}

/// Converts an RGBA buffer to luma and returns the text of the Code 128
/// barcode in it, or the empty string.
///
/// Neither side of the image may be longer than `MAX_SIDE`.
pub fn decode_rgba(data: &[u8], width: u32, height: u32) -> (text: String)
    requires
        within_max_side(width, height),
    ensures
        text@ == rgba_text(data@, width, height),
        !fits_dimensions(pixel_count(data@.len()), width, height) ==> text@.len() == 0,
{
    decode_luma(convert_image_to_luma(data), width, height)
}

/// Decodes the Code 128 barcode in the pixels read from the rectangle of the
/// given width and height.
///
/// `pixels` is what the image source returned for the rectangle: the RGBA
/// bytes, or `None` where the read failed. The result is the decoded text, or
/// the empty string for every failure. Where there are pixels, neither side of
/// the rectangle may be longer than `MAX_SIDE`.
pub fn decode_barcode(pixels: Option<Vec<u8>>, width: u32, height: u32) -> (text: String)
    requires
        pixels is Some ==> within_max_side(width, height),
    ensures
        text@ == scan_text(pixels_view(pixels), width, height),
        pixels is None ==> text@.len() == 0,
        pixels is Some ==> text@ == text_or_empty(
            code128_text(luma_of(pixels->0@), width, height),
        ),
        pixels is Some && !fits_dimensions(pixel_count(pixels->0@.len()), width, height)
            ==> text@.len() == 0,
        pixels is Some && code128_text(luma_of(pixels->0@), width, height) is None
            ==> text@.len() == 0,
{
    match pixels {
        Some(data) => decode_rgba(data.as_slice(), width, height),
        None => String::new(),
    }
}

/// A failed read of the image gives the empty string, whatever the
/// dimensions.
pub proof fn lemma_failed_read_is_empty(width: u32, height: u32)
    ensures
        scan_text(None, width, height) == Seq::<char>::empty(),
{
}

/// A scan in which the detector finds nothing gives the empty string.
pub proof fn lemma_no_match_is_empty(data: Seq<u8>, width: u32, height: u32)
    ensures
        code128_text(luma_of(data), width, height) is None ==> scan_text(
            Some(data),
            width,
            height,
        ) == Seq::<char>::empty(),
{
}

/// A scan reads whole pixels only: bytes after the last whole pixel do not
/// change its text.
pub proof fn lemma_scan_ignores_trailing_bytes(data: Seq<u8>, width: u32, height: u32)
    ensures
        scan_text(Some(data), width, height) == scan_text(
            Some(whole_pixels(data)),
            width,
            height,
        ),
{
    lemma_trailing_bytes_ignored(data);
}

} // verus!
