//! Luma conversion: one grayscale byte for each whole RGBA pixel.
//!
//! The luminance `0.299 R + 0.587 G + 0.114 B` is computed in fixed point: the
//! weights are scaled by 1024 to 306, 601 and 117 (they sum to 1024), 512 is
//! added so that the shift by ten bits rounds to nearest, and the sum is held
//! in 32 bits, where it cannot exceed `255 * 1024 + 512`. A pixel whose alpha
//! is zero is read as white: blended against a white background, a
//! transparent area is white.

use vstd::prelude::*;

verus! {

/// Bytes per RGBA pixel.
pub const CHANNELS: usize = 4;

/// Luma of a pixel that is fully transparent: white.
pub const TRANSPARENT_LUMA: u8 = 255;

/// Weight of the red channel: 0.299, scaled by 1024.
pub const RED_WEIGHT: u32 = 306;

/// Weight of the green channel: 0.587, scaled by 1024.
pub const GREEN_WEIGHT: u32 = 601;

/// Weight of the blue channel: 0.114, scaled by 1024.
pub const BLUE_WEIGHT: u32 = 117;

/// Half of the scale, added before the shift so that it rounds to nearest.
pub const ROUNDING: u32 = 512;

/// The scale as a shift: the weighted sum is divided by `1 << 10`.
pub const SCALE_SHIFT: u32 = 10;

/// The weighted sum of the colour channels, scaled by 1024, with the rounding
/// term added.
pub open spec fn weighted_sum(red: u8, green: u8, blue: u8) -> int {
    RED_WEIGHT * red + GREEN_WEIGHT * green + BLUE_WEIGHT * blue + ROUNDING
}

/// The luma of one pixel: 255 where alpha is zero, else the weighted sum
/// divided by 1024.
pub open spec fn pixel_luma(red: u8, green: u8, blue: u8, alpha: u8) -> int {
    if alpha == 0 {
        255
    } else {
        weighted_sum(red, green, blue) / 1024
    }
}

/// Number of whole pixels in a buffer of `len` bytes.
pub open spec fn pixel_count(len: nat) -> nat {
    len / 4
}

/// The luma of pixel `i` of an RGBA buffer.
pub open spec fn luma_at(data: Seq<u8>, i: int) -> int
    recommends
        0 <= i < pixel_count(data.len()),
{
    pixel_luma(data[4 * i], data[4 * i + 1], data[4 * i + 2], data[4 * i + 3])
}

/// The luma buffer of an RGBA buffer: one byte per whole pixel, in order. A
/// trailing group of fewer than four bytes has no part in it.
pub open spec fn luma_of(data: Seq<u8>) -> Seq<u8> {
    Seq::new(pixel_count(data.len()), |i: int| luma_at(data, i) as u8)
}

/// The luma of a pixel is a byte, and the weighted sum behind it fits in 32
/// bits with room to spare.
pub proof fn lemma_pixel_luma_is_byte(red: u8, green: u8, blue: u8, alpha: u8)
    ensures
        0 <= pixel_luma(red, green, blue, alpha) <= 255,
        512 <= weighted_sum(red, green, blue) <= 255 * 1024 + 512,
{
}

/// The three weights add up to the scale, so that a grey pixel keeps its
/// level.
pub proof fn lemma_weights_sum_to_scale(level: u8, alpha: u8)
    ensures
        RED_WEIGHT + GREEN_WEIGHT + BLUE_WEIGHT == 1024,
        alpha != 0 ==> pixel_luma(level, level, level, alpha) == level,
{
}

/// The luminance `0.299 R + 0.587 G + 0.114 B`, in thousandths.
pub open spec fn luminance_milli(red: u8, green: u8, blue: u8) -> int {
    299 * red + 587 * green + 114 * blue
}

/// The integer nearest to `milli / 1000`, a half rounded up.
pub open spec fn round_milli(milli: int) -> int {
    (milli + 500) / 1000
}

/// The luma of a pixel that is not fully transparent is within one of the
/// rounded luminance `round(0.299 R + 0.587 G + 0.114 B)`, and within 0.567 of
/// the luminance itself.
pub proof fn lemma_luma_near_luminance(red: u8, green: u8, blue: u8, alpha: u8)
    requires
        alpha != 0,
    ensures
        -1 <= pixel_luma(red, green, blue, alpha) - round_milli(luminance_milli(red, green, blue))
            <= 1,
        -567 <= 1000 * pixel_luma(red, green, blue, alpha) - luminance_milli(red, green, blue)
            <= 567,
{
}

/// A fully transparent pixel has luma 255, whatever its colour channels hold.
pub proof fn lemma_transparent_is_white(red: u8, green: u8, blue: u8)
    ensures
        pixel_luma(red, green, blue, 0) == 255,
{
}

/// The luma buffer has one byte for each whole group of four input bytes.
pub proof fn lemma_luma_len(data: Seq<u8>)
    ensures
        luma_of(data).len() == data.len() / 4,
        data.len() < 4 ==> luma_of(data) == Seq::<u8>::empty(),
{
    if data.len() < 4 {
        assert(luma_of(data) =~= Seq::<u8>::empty());
    }
}

/// The longest prefix of a buffer that is made of whole pixels.
pub open spec fn whole_pixels(data: Seq<u8>) -> Seq<u8> {
    data.subrange(0, 4 * pixel_count(data.len()) as int)
}

/// Trailing bytes that do not fill a pixel are ignored: a buffer and its
/// longest prefix of whole pixels have the same luma buffer.
pub proof fn lemma_trailing_bytes_ignored(data: Seq<u8>)
    ensures
        luma_of(data) == luma_of(whole_pixels(data)),
{
    let whole = whole_pixels(data);
    assert(whole.len() / 4 == data.len() / 4);
    assert forall|i: int| 0 <= i < pixel_count(data.len()) implies luma_at(data, i) == luma_at(
        whole,
        i,
    ) by {
        assert(whole[4 * i] == data[4 * i]);
        assert(whole[4 * i + 1] == data[4 * i + 1]);
        assert(whole[4 * i + 2] == data[4 * i + 2]);
        assert(whole[4 * i + 3] == data[4 * i + 3]);
    }
    assert(luma_of(data) =~= luma_of(whole));
}

/// Pixels are converted one by one and in order: the luma buffer of whole
/// pixels followed by more bytes is the luma buffer of the first followed by
/// that of the rest.
pub proof fn lemma_luma_of_concat(head: Seq<u8>, rest: Seq<u8>)
    requires
        head.len() % 4 == 0,
    ensures
        luma_of(head + rest) == luma_of(head) + luma_of(rest),
{
    let all = head + rest;
    let n = pixel_count(head.len());
    assert(pixel_count(all.len()) == n + pixel_count(rest.len()));
    assert forall|i: int| 0 <= i < pixel_count(all.len()) implies luma_of(all)[i] == (luma_of(head)
        + luma_of(rest))[i] by {
        if i < n {
            assert(all[4 * i] == head[4 * i]);
            assert(all[4 * i + 1] == head[4 * i + 1]);
            assert(all[4 * i + 2] == head[4 * i + 2]);
            assert(all[4 * i + 3] == head[4 * i + 3]);
        } else {
            let j = i - n;
            assert(all[4 * i] == rest[4 * j]);
            assert(all[4 * i + 1] == rest[4 * j + 1]);
            assert(all[4 * i + 2] == rest[4 * j + 2]);
            assert(all[4 * i + 3] == rest[4 * j + 3]);
        }
    }
    assert(luma_of(all) =~= luma_of(head) + luma_of(rest));
}

/// Computes the luma of one pixel: 255 where alpha is zero, else the
/// fixed-point luminance of the colour channels.
pub fn luma_of_pixel(red: u8, green: u8, blue: u8, alpha: u8) -> (luma: u8)
    ensures
        luma == pixel_luma(red, green, blue, alpha),
        alpha == 0 ==> luma == 255,
        alpha != 0 ==> luma == (306 * red + 601 * green + 117 * blue + 512) / 1024,
        alpha != 0 ==> -1 <= luma - round_milli(luminance_milli(red, green, blue)) <= 1,
{
    if alpha == 0 {
        TRANSPARENT_LUMA
    } else {
        let weighted: u32 = RED_WEIGHT * (red as u32) + GREEN_WEIGHT * (green as u32)
            + BLUE_WEIGHT * (blue as u32);
        let sum: u32 = weighted + ROUNDING;
        assert(sum >> 10 == sum / 1024) by (bit_vector);
        (sum >> SCALE_SHIFT) as u8
    }
}

/// Converts an RGBA buffer to its luma buffer.
///
/// The result has one byte for each whole group of four input bytes; up to
/// three trailing bytes are ignored. The input is not changed and the output
/// is allocated once, at its final size.
pub fn convert_image_to_luma(data: &[u8]) -> (luma: Vec<u8>)
    ensures
        luma@ == luma_of(data@),
        luma@.len() == data@.len() / 4,
        forall|i: int|
            0 <= i < luma@.len() ==> luma@[i] == #[trigger] luma_at(data@, i),
        forall|i: int|
            0 <= i < luma@.len() && data@[4 * i + 3] == 0 ==> #[trigger] luma@[i] == 255,
        forall|i: int|
            0 <= i < luma@.len() && data@[4 * i + 3] != 0 ==> -1 <= #[trigger] luma@[i]
                - round_milli(luminance_milli(data@[4 * i], data@[4 * i + 1], data@[4 * i + 2]))
                <= 1,
        data@.len() < 4 ==> luma@.len() == 0,
{
    let pixels: usize = data.len() / CHANNELS;
    let mut luma: Vec<u8> = Vec::with_capacity(pixels);
    let mut i: usize = 0;
    while i < pixels
        invariant
            pixels == data@.len() / 4,
            data@.len() <= usize::MAX,
            i <= pixels,
            luma@.len() == i,
            forall|k: int| 0 <= k < i ==> luma@[k] == #[trigger] luma_at(data@, k),
        decreases pixels - i,
    {
        let base: usize = i * CHANNELS;
        let pixel = luma_of_pixel(data[base], data[base + 1], data[base + 2], data[base + 3]);
        luma.push(pixel);
        i += 1;
    }
    assert(luma@ =~= luma_of(data@));
    luma
}

} // verus!
