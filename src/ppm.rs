//! ASCII PPM (P3) encoding of an image whose channels are already quantized to 8 bits.
use vstd::prelude::*;

verus! {

/// ASCII code of `P`.
pub const LETTER_P: u8 = 80;

/// ASCII code of `3`.
pub const DIGIT_THREE: u8 = 51;

/// ASCII code of `2`.
pub const DIGIT_TWO: u8 = 50;

/// ASCII code of `5`.
pub const DIGIT_FIVE: u8 = 53;

/// ASCII code of the space that separates numbers on a line.
pub const SPACE: u8 = 32;

/// ASCII code of the line feed that ends each line.
pub const NEWLINE: u8 = 10;

/// ASCII code of the digit `d` (`d < 10`).
pub open spec fn digit_byte(d: nat) -> u8 {
    (d + 48) as u8
}

/// Decimal representation of `n`, most significant digit first, without leading zeros.
pub open spec fn decimal(n: nat) -> Seq<u8>
    decreases n,
{
    if n < 10 {
        seq![digit_byte(n)]
    } else {
        decimal(n / 10).push(digit_byte(n % 10))
    }
}

/// Text of the PPM header: the magic `P3`, the dimensions, and the largest channel value.
pub open spec fn header_text(width: nat, height: nat) -> Seq<u8> {
    seq![LETTER_P, DIGIT_THREE, NEWLINE] + decimal(width) + seq![SPACE] + decimal(height)
        + seq![NEWLINE, DIGIT_TWO, DIGIT_FIVE, DIGIT_FIVE, NEWLINE]
}

/// Text of one pixel: its three channels in decimal, separated by single spaces.
pub open spec fn pixel_text_of(r: nat, g: nat, b: nat) -> Seq<u8> {
    decimal(r) + seq![SPACE] + decimal(g) + seq![SPACE] + decimal(b)
}

/// Lines of the given pixels, in order, one pixel per line.
pub open spec fn pixel_lines(pixels: Seq<(u8, u8, u8)>) -> Seq<u8>
    decreases pixels.len(),
{
    if pixels.len() == 0 {
        Seq::empty()
    } else {
        let p = pixels.last();
        pixel_lines(pixels.drop_last()) + pixel_text_of(p.0 as nat, p.1 as nat, p.2 as nat)
            + seq![NEWLINE]
    }
}

/// Text of a whole PPM image: the header followed by one line per pixel.
pub open spec fn image_text(width: nat, height: nat, pixels: Seq<(u8, u8, u8)>) -> Seq<u8> {
    header_text(width, height) + pixel_lines(pixels)
}

/// Why an image could not be encoded.
#[derive(Debug, Clone, Copy, PartialEq, Eq, Structural)]
pub enum PpmError {
    /// The number of pixels differs from `width * height`.
    PixelCountMismatch,
}

/// Appends the decimal representation of `n` to `out`.
pub fn push_decimal(out: &mut Vec<u8>, n: u64)
    ensures
        final(out)@ == old(out)@ + decimal(n as nat),
    decreases n,
{
    if n >= 10 {
        push_decimal(out, n / 10);
    }
    out.push((n % 10) as u8 + 48);
    proof {
        if n >= 10 {
            assert(decimal(n as nat) == decimal((n / 10) as nat).push(digit_byte((n % 10) as nat)));
        }
        assert(out@ =~= old(out)@ + decimal(n as nat));
    }
}

/// The PPM header for an image of `width` by `height` pixels, each line ended by a line feed.
pub fn ppm_header(width: u64, height: u64) -> (r: Vec<u8>)
    ensures
        r@ == header_text(width as nat, height as nat),
{
    let mut out: Vec<u8> = Vec::new();
    out.push(LETTER_P);
    out.push(DIGIT_THREE);
    out.push(NEWLINE);
    push_decimal(&mut out, width);
    out.push(SPACE);
    push_decimal(&mut out, height);
    out.push(NEWLINE);
    out.push(DIGIT_TWO);
    out.push(DIGIT_FIVE);
    out.push(DIGIT_FIVE);
    out.push(NEWLINE);
    assert(out@ =~= header_text(width as nat, height as nat));
    out
}

/// Appends the text of one pixel, without a line end, to `out`.
fn push_pixel(out: &mut Vec<u8>, r: u8, g: u8, b: u8)
    ensures
        final(out)@ == old(out)@ + pixel_text_of(r as nat, g as nat, b as nat),
{
    push_decimal(out, r as u64);
    out.push(SPACE);
    push_decimal(out, g as u64);
    out.push(SPACE);
    push_decimal(out, b as u64);
    assert(out@ =~= old(out)@ + pixel_text_of(r as nat, g as nat, b as nat));
}

/// The text of one pixel: its red, green and blue channels in decimal, separated by spaces.
pub fn pixel_text(r: u8, g: u8, b: u8) -> (t: Vec<u8>)
    ensures
        t@ == pixel_text_of(r as nat, g as nat, b as nat),
{
    let mut out: Vec<u8> = Vec::new();
    push_pixel(&mut out, r, g, b);
    assert(out@ =~= pixel_text_of(r as nat, g as nat, b as nat));
    out
}

/// The whole PPM image: the header, then each pixel on a line of its own, in the order given.
pub fn encode_ppm(width: u64, height: u64, pixels: &Vec<(u8, u8, u8)>) -> (r: Result<
    Vec<u8>,
    PpmError,
>)
    ensures
        pixels@.len() == width * height <==> r is Ok,
        r is Ok ==> r->Ok_0@ == image_text(width as nat, height as nat, pixels@),
        r is Err ==> r->Err_0 == PpmError::PixelCountMismatch,
{
    let len: usize = pixels.len();
    match width.checked_mul(height) {
        None => {
            assert(len as u64 == len);
            return Err(PpmError::PixelCountMismatch);
        },
        Some(n) => {
            if len as u64 != n {
                return Err(PpmError::PixelCountMismatch);
            }
        },
    }
    let mut out = ppm_header(width, height);
    let mut i: usize = 0;
    while i < pixels.len()
        invariant
            i <= pixels@.len(),
            out@ == header_text(width as nat, height as nat) + pixel_lines(pixels@.subrange(0, i as int)),
        decreases pixels@.len() - i,
    {
        let (r, g, b) = pixels[i];
        push_pixel(&mut out, r, g, b);
        out.push(NEWLINE);
        proof {
            let s = pixels@.subrange(0, i + 1);
            assert(s.drop_last() =~= pixels@.subrange(0, i as int));
            assert(s.last() == pixels@[i as int]);
        }
        i = i + 1;
        assert(out@ =~= header_text(width as nat, height as nat) + pixel_lines(pixels@.subrange(0, i as int)));
    }
    assert(pixels@.subrange(0, pixels@.len() as int) =~= pixels@);
    Ok(out)
}

} // verus!
