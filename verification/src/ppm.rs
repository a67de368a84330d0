//! The plain-text pixel-grid output format.
//!
//! An image is written as a header — the magic line `P3`, a line with the
//! width and height, and a line with the maximum channel value `255` —
//! followed by one line per pixel in raster order, holding the pixel's red,
//! green and blue channels as space-separated decimal integers. This module
//! produces those bytes exactly, from already quantized 8-bit channels.

use vstd::prelude::*;

verus! {

/// One output pixel: an 8-bit red, green and blue channel.
#[derive(Clone, Copy, PartialEq, Eq, Structural, Debug)]
pub struct Pixel {
    pub red: u8,
    pub green: u8,
    pub blue: u8,
}

/// The decimal digits of `n` as ASCII bytes, most significant digit first,
/// with no leading zeros (a single `0` for zero).
pub open spec fn decimal_digits(n: nat) -> Seq<u8>
    decreases n,
{
    if n < 10 {
        seq![(48 + n) as u8]
    } else {
        decimal_digits(n / 10).push((48 + n % 10) as u8)
    }
}

/// One pixel line: the three channels in decimal, separated by single
/// spaces, terminated by a newline.
pub open spec fn spec_pixel_line(p: Pixel) -> Seq<u8> {
    decimal_digits(p.red as nat) + seq![32u8] + decimal_digits(p.green as nat) + seq![32u8]
        + decimal_digits(p.blue as nat) + seq![10u8]
}

/// The pixel lines of an image, in the order the pixels are given.
pub open spec fn spec_pixel_lines(ps: Seq<Pixel>) -> Seq<u8>
    decreases ps.len(),
{
    if ps.len() == 0 {
        Seq::empty()
    } else {
        spec_pixel_lines(ps.drop_last()) + spec_pixel_line(ps.last())
    }
}

/// The header: `P3`, the image dimensions, and the maximum channel value,
/// one line each.
pub open spec fn spec_ppm_header(width: nat, height: nat) -> Seq<u8> {
    seq![80u8, 51u8, 10u8] + decimal_digits(width) + seq![32u8] + decimal_digits(height)
        + seq![10u8] + decimal_digits(255) + seq![10u8]
}

/// The whole image: header, then one line per pixel.
pub open spec fn spec_ppm_image(width: nat, height: nat, ps: Seq<Pixel>) -> Seq<u8> {
    spec_ppm_header(width, height) + spec_pixel_lines(ps)
}

/// How many newline bytes `s` holds — the number of lines, since every
/// line of the format is newline-terminated.
pub open spec fn newline_count(s: Seq<u8>) -> nat
    decreases s.len(),
{
    if s.len() == 0 {
        0
    } else {
        newline_count(s.drop_last()) + (if s.last() == 10 {
            1nat
        } else {
            0nat
        })
    }
}

/// Newlines are counted piecewise over a concatenation.
pub proof fn lemma_newline_count_add(a: Seq<u8>, b: Seq<u8>)
    ensures
        newline_count(a + b) == newline_count(a) + newline_count(b),
    decreases b.len(),
{
    if b.len() == 0 {
        assert(a + b =~= a);
    } else {
        assert((a + b).drop_last() =~= a + b.drop_last());
        assert((a + b).last() == b.last());
        lemma_newline_count_add(a, b.drop_last());
    }
}

/// Decimal digits contain no newline.
pub proof fn lemma_decimal_digits_no_newline(n: nat)
    ensures
        newline_count(decimal_digits(n)) == 0,
    decreases n,
{
    if n < 10 {
        assert(newline_count(Seq::<u8>::empty()) == 0);
        assert(decimal_digits(n).drop_last() =~= Seq::<u8>::empty());
    } else {
        lemma_decimal_digits_no_newline(n / 10);
        assert(decimal_digits(n).drop_last() =~= decimal_digits(n / 10));
    }
}

/// A pixel line is exactly one line.
pub proof fn lemma_pixel_line_count(p: Pixel)
    ensures
        newline_count(spec_pixel_line(p)) == 1,
{
    lemma_decimal_digits_no_newline(p.red as nat);
    lemma_decimal_digits_no_newline(p.green as nat);
    lemma_decimal_digits_no_newline(p.blue as nat);
    lemma_newline_count_singleton(32);
    lemma_newline_count_singleton(10);
    lemma_newline_count_add(decimal_digits(p.red as nat), seq![32u8]);
    lemma_newline_count_add(decimal_digits(p.red as nat) + seq![32u8], decimal_digits(p.green as nat));
    lemma_newline_count_add(
        decimal_digits(p.red as nat) + seq![32u8] + decimal_digits(p.green as nat),
        seq![32u8],
    );
    lemma_newline_count_add(
        decimal_digits(p.red as nat) + seq![32u8] + decimal_digits(p.green as nat) + seq![32u8],
        decimal_digits(p.blue as nat),
    );
    lemma_newline_count_add(
        decimal_digits(p.red as nat) + seq![32u8] + decimal_digits(p.green as nat) + seq![32u8]
            + decimal_digits(p.blue as nat),
        seq![10u8],
    );
}

/// Helper: the newline count of a one-byte sequence.
proof fn lemma_newline_count_singleton(b: u8)
    ensures
        newline_count(seq![b]) == (if b == 10 {
            1nat
        } else {
            0nat
        }),
{
    assert(newline_count(Seq::<u8>::empty()) == 0);
    assert(seq![b].drop_last() =~= Seq::<u8>::empty());
}

/// The header is exactly three lines: the magic value, the dimensions, and
/// the maximum channel value.
pub proof fn lemma_header_line_count(width: nat, height: nat)
    ensures
        newline_count(spec_ppm_header(width, height)) == 3,
{
    let magic = seq![80u8, 51u8, 10u8];
    assert(magic.drop_last() =~= seq![80u8, 51u8]);
    assert(seq![80u8, 51u8].drop_last() =~= seq![80u8]);
    assert(seq![80u8].drop_last() =~= Seq::<u8>::empty());
    assert(newline_count(Seq::<u8>::empty()) == 0);
    assert(newline_count(seq![80u8]) == 0);
    assert(newline_count(seq![80u8, 51u8]) == 0);
    assert(newline_count(magic) == 1);
    lemma_decimal_digits_no_newline(width);
    lemma_decimal_digits_no_newline(height);
    lemma_decimal_digits_no_newline(255);
    lemma_newline_count_singleton(32);
    lemma_newline_count_singleton(10);
    lemma_newline_count_add(magic, decimal_digits(width));
    lemma_newline_count_add(magic + decimal_digits(width), seq![32u8]);
    lemma_newline_count_add(magic + decimal_digits(width) + seq![32u8], decimal_digits(height));
    lemma_newline_count_add(
        magic + decimal_digits(width) + seq![32u8] + decimal_digits(height),
        seq![10u8],
    );
    lemma_newline_count_add(
        magic + decimal_digits(width) + seq![32u8] + decimal_digits(height) + seq![10u8],
        decimal_digits(255),
    );
    lemma_newline_count_add(
        magic + decimal_digits(width) + seq![32u8] + decimal_digits(height) + seq![10u8]
            + decimal_digits(255),
        seq![10u8],
    );
}

/// The whole image is the three header lines followed by exactly one line
/// per pixel.
pub proof fn lemma_image_line_count(width: nat, height: nat, ps: Seq<Pixel>)
    ensures
        newline_count(spec_ppm_image(width, height, ps)) == 3 + ps.len(),
{
    lemma_header_line_count(width, height);
    lemma_pixel_lines_count(ps);
    lemma_newline_count_add(spec_ppm_header(width, height), spec_pixel_lines(ps));
}

/// Helper: the pixel block holds one line per pixel.
proof fn lemma_pixel_lines_count(ps: Seq<Pixel>)
    ensures
        newline_count(spec_pixel_lines(ps)) == ps.len(),
    decreases ps.len(),
{
    if ps.len() > 0 {
        lemma_pixel_lines_count(ps.drop_last());
        lemma_pixel_line_count(ps.last());
        lemma_newline_count_add(spec_pixel_lines(ps.drop_last()), spec_pixel_line(ps.last()));
    }
}

/// Append the decimal digits of `n`.
pub fn push_decimal(out: &mut Vec<u8>, n: u32)
    ensures
        final(out)@ == old(out)@ + decimal_digits(n as nat),
    decreases n,
{
    if n < 10 {
        out.push(48 + n as u8);
        proof {
            assert(out@ =~= old(out)@ + decimal_digits(n as nat));
        }
    } else {
        push_decimal(out, n / 10);
        out.push(48 + (n % 10) as u8);
        proof {
            assert(out@ =~= old(out)@ + decimal_digits(n as nat));
        }
    }
}

/// Append one pixel line.
pub fn push_pixel_line(out: &mut Vec<u8>, p: Pixel)
    ensures
        final(out)@ == old(out)@ + spec_pixel_line(p),
{
    push_decimal(out, p.red as u32);
    out.push(32);
    push_decimal(out, p.green as u32);
    out.push(32);
    push_decimal(out, p.blue as u32);
    out.push(10);
    proof {
        assert(out@ =~= old(out)@ + spec_pixel_line(p));
    }
}

/// The bytes of a whole image in the plain-text pixel-grid format: the
/// header for a `width` by `height` image, then one line per pixel, in the
/// order the pixels are given (raster order: top row first, left to right).
pub fn ppm_bytes(width: u32, height: u32, pixels: &Vec<Pixel>) -> (out: Vec<u8>)
    requires
        pixels@.len() == width * height,
    ensures
        out@ == spec_ppm_image(width as nat, height as nat, pixels@),
{
    let mut out: Vec<u8> = Vec::new();
    out.push(80);
    out.push(51);
    out.push(10);
    push_decimal(&mut out, width);
    out.push(32);
    push_decimal(&mut out, height);
    out.push(10);
    push_decimal(&mut out, 255);
    out.push(10);
    proof {
        assert(out@ =~= spec_ppm_header(width as nat, height as nat));
        assert(pixels@.take(0) =~= Seq::<Pixel>::empty());
    }
    let mut i: usize = 0;
    while i < pixels.len()
        invariant
            i <= pixels@.len(),
            out@ == spec_ppm_image(width as nat, height as nat, pixels@.take(i as int)),
        decreases pixels@.len() - i,
    {
        let p = pixels[i];
        push_pixel_line(&mut out, p);
        proof {
            assert(pixels@.take(i + 1).drop_last() =~= pixels@.take(i as int));
            assert(pixels@.take(i + 1).last() == pixels@[i as int]);
            assert(out@ =~= spec_ppm_image(width as nat, height as nat, pixels@.take(i + 1)));
        }
        i = i + 1;
    }
    proof {
        assert(pixels@.take(pixels@.len() as int) =~= pixels@);
    }
    out
}

} // verus!
