//! The barcode detector, asked for Code 128 only.
//!
//! Detection itself is the work of the `rxing` crate and is not verified here.
//! This module gives its answer a name, states the few facts about it that the
//! rest of the library relies on, says which images it can be given, and turns
//! the answer into the text that a scan returns.

use vstd::prelude::*;

verus! {

/// The longest side, in pixels, of an image that the detector is given.
///
/// It is the longest row on which the arithmetic of `rxing` stays in range
/// where a pointer has 32 bits: see [`row_in_range`]. A row is as long as the
/// image is wide or, once the detector has turned the image, tall.
pub const MAX_SIDE: u32 = 99_505;

/// Whether neither side of an image is longer than the detector is given.
pub open spec fn within_max_side(width: u32, height: u32) -> bool {
    width <= MAX_SIDE && height <= MAX_SIDE
}

/// The most symbols that can follow the start symbol in a row of `pixels`
/// pixels: a symbol that `rxing` matches spans at least eleven pixels, and so
/// does the start symbol.
pub open spec fn max_symbols(pixels: nat) -> nat {
    if pixels < 11 {
        0
    } else {
        (pixels / 11 - 1) as nat
    }
}

/// An upper bound of the checksum total that `rxing` adds up over a start
/// symbol and `symbols` more: the value of the start symbol, then the value of
/// each symbol times its position, with no value above 105.
pub open spec fn checksum_ceiling(symbols: nat) -> nat {
    105 * (1 + symbols * (symbols + 1) / 2)
}

/// Whether the detector's arithmetic on a row of `pixels` pixels stays in range
/// where a pointer has 32 bits.
///
/// `rxing` estimates the black point of a row from a histogram of the row. One
/// score there is a pixel count of the row times a factor of at most 4410, in a
/// pointer-sized signed integer; another is a pixel count times at most 961,
/// in 32 unsigned bits. Its Code 128 reader adds up the checksum total of the
/// symbols in the row in a pointer-sized unsigned integer.
pub open spec fn row_in_range(pixels: nat) -> bool {
    &&& 4410 * pixels <= i32::MAX
    &&& 961 * pixels <= u32::MAX
    &&& checksum_ceiling(max_symbols(pixels)) <= u32::MAX
}

/// The rows on which the detector's arithmetic stays in range are those of at
/// most [`MAX_SIDE`] pixels.
pub proof fn lemma_row_in_range(pixels: nat)
    ensures
        row_in_range(pixels) <==> pixels <= MAX_SIDE,
{
    let symbols = max_symbols(pixels);
    if pixels <= MAX_SIDE {
        assert(symbols <= 9044);
        assert(symbols * (symbols + 1) <= 9044 * 9045) by (nonlinear_arith)
            requires
                symbols <= 9044,
        ;
    } else {
        assert(symbols >= 9045);
        assert(symbols * (symbols + 1) >= 9045 * 9046) by (nonlinear_arith)
            requires
                symbols >= 9045,
        ;
    }
}

/// Tells whether neither side of an image is longer than [`MAX_SIDE`]: whether
/// the image can be handed to [`decode_luma`].
pub fn is_within_max_side(width: u32, height: u32) -> (within: bool)
    ensures
        within == within_max_side(width, height),
{
    width <= MAX_SIDE && height <= MAX_SIDE
}

/// The text that `rxing` reads as Code 128 in a luma buffer of the given width
/// and height, or `None` where it finds no such barcode or rejects the buffer.
pub uninterp spec fn code128_text(luma: Seq<u8>, width: u32, height: u32) -> Option<Seq<char>>;

/// The characters of an optional string.
pub open spec fn text_view(found: Option<String>) -> Option<Seq<char>> {
    match found {
        Some(text) => Some(text@),
        None => None,
    }
}

/// Whether a luma buffer of `len` bytes can be an image of the given width and
/// height: neither dimension is zero and there is one byte per pixel.
pub open spec fn fits_dimensions(len: nat, width: u32, height: u32) -> bool {
    width != 0 && height != 0 && len == width * height
}

/// The text of a scan, given the detector's answer: the text it read, or the
/// empty string where it read none.
pub open spec fn text_or_empty(found: Option<Seq<char>>) -> Seq<char> {
    match found {
        Some(text) => text,
        None => Seq::empty(),
    }
}

/// Calls `rxing::helpers::detect_in_luma` with the format fixed to
/// `BarcodeFormat::CODE_128` and keeps the text of its result, read with
/// `RXingResult::getText`; an error of any kind becomes `None`.
///
/// Trusted, not proved: the answer depends on the buffer and the dimensions
/// alone, so it is the named `code128_text`; and the call fails, before it
/// looks at a pixel, where a dimension is zero or the buffer does not hold
/// `width * height` bytes. Rows on which the arithmetic of `rxing` can leave
/// its range are left out, and with them the panic of an overflow.
#[verifier::external_body]
pub(crate) fn detect_code128(luma: Vec<u8>, width: u32, height: u32) -> (found: Option<String>)
    requires
        row_in_range(width as nat),
        row_in_range(height as nat),
    ensures
        text_view(found) == code128_text(luma@, width, height),
        !fits_dimensions(luma@.len(), width, height) ==> found is None,
{
    match rxing::helpers::detect_in_luma(
        luma,
        width,
        height,
        Some(rxing::BarcodeFormat::CODE_128),
    ) {
        Ok(result) => Some(result.getText().to_string()),
        Err(_) => None,
    }
}

/// The text that a scan returns for the detector's answer: the decoded text on
/// a match, the empty string on none.
pub fn found_text(found: Option<String>) -> (text: String)
    ensures
        text@ == text_or_empty(text_view(found)),
        found is None ==> text@.len() == 0,
{
    match found {
        Some(text) => text,
        None => String::new(),
    }
}

/// Looks for a Code 128 barcode in a luma buffer and returns its text, or the
/// empty string where none is found.
///
/// Neither side of the image may be longer than [`MAX_SIDE`].
pub fn decode_luma(luma: Vec<u8>, width: u32, height: u32) -> (text: String)
    requires
        width <= MAX_SIDE,
        height <= MAX_SIDE,
    ensures
        text@ == text_or_empty(code128_text(luma@, width, height)),
        !fits_dimensions(luma@.len(), width, height) ==> text@.len() == 0,
{
    proof {
        lemma_row_in_range(width as nat);
        lemma_row_in_range(height as nat);
    }
    found_text(detect_code128(luma, width, height))
}

} // verus!
