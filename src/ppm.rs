use vstd::prelude::*;
use crate::image::Rgb;

verus! {

// ASCII codes of the characters that a plain-text PPM file uses.
pub const ZERO: u8 = 48;
pub const MINUS: u8 = 45;
pub const SPACE: u8 = 32;
pub const NEWLINE: u8 = 10;
pub const UPPER_P: u8 = 80;
pub const THREE: u8 = 51;
pub const TWO: u8 = 50;
pub const FIVE: u8 = 53;

/// The ASCII decimal digits of `n`, most significant first, without leading zeros.
pub open spec fn decimal(n: nat) -> Seq<u8>
    decreases n,
{
    if n < 10 {
        seq![(ZERO + n) as u8]
    } else {
        decimal(n / 10).push((ZERO + n % 10) as u8)
    }
}

/// The ASCII decimal text of `i`, with a leading `-` when it is negative.
pub open spec fn signed_decimal(i: int) -> Seq<u8> {
    if i < 0 {
        seq![MINUS] + decimal((-i) as nat)
    } else {
        decimal(i as nat)
    }
}

/// `P3`, the width and height, and the maximum channel value 255, each on its own line.
pub open spec fn ppm_header(width: nat, height: nat) -> Seq<u8> {
    seq![UPPER_P, THREE, NEWLINE] + decimal(width) + seq![SPACE] + decimal(height) + seq![
        NEWLINE,
        TWO,
        FIVE,
        FIVE,
        NEWLINE,
    ]
}

/// One pixel as a line `R G B`.
pub open spec fn ppm_pixel(p: Rgb) -> Seq<u8> {
    signed_decimal(p.r as int) + seq![SPACE] + signed_decimal(p.g as int) + seq![SPACE]
        + signed_decimal(p.b as int) + seq![NEWLINE]
}

/// The pixel lines of `pixels`, in order.
pub open spec fn ppm_body(pixels: Seq<Rgb>) -> Seq<u8>
    decreases pixels.len(),
{
    if pixels.len() == 0 {
        Seq::empty()
    } else {
        ppm_body(pixels.drop_last()) + ppm_pixel(pixels.last())
    }
}

/// The whole plain-text PPM file of an image.
pub open spec fn ppm_file(width: nat, height: nat, pixels: Seq<Rgb>) -> Seq<u8> {
    ppm_header(width, height) + ppm_body(pixels)
}

/// Appends the decimal digits of `n`.
pub(crate) fn push_decimal(out: &mut Vec<u8>, n: u64)
    ensures
        final(out)@ == old(out)@ + decimal(n as nat),
    decreases n,
{
    if n >= 10 {
        push_decimal(out, n / 10);
    }
    out.push(ZERO + (n % 10) as u8);
    assert(final(out)@ =~= old(out)@ + decimal(n as nat));
}

/// Appends the decimal text of `v`, with a leading `-` when it is negative.
pub(crate) fn push_signed_decimal(out: &mut Vec<u8>, v: i32)
    ensures
        final(out)@ == old(out)@ + signed_decimal(v as int),
{
    if v < 0 {
        out.push(MINUS);
        push_decimal(out, (-(v as i64)) as u64);
        assert(final(out)@ =~= old(out)@ + signed_decimal(v as int));
    } else {
        push_decimal(out, v as u64);
    }
}

/// Appends the header line block for an image of the given size.
pub(crate) fn push_header(out: &mut Vec<u8>, width: u32, height: u32)
    ensures
        final(out)@ == old(out)@ + ppm_header(width as nat, height as nat),
{
    out.push(UPPER_P);
    out.push(THREE);
    out.push(NEWLINE);
    push_decimal(out, width as u64);
    out.push(SPACE);
    push_decimal(out, height as u64);
    out.push(NEWLINE);
    out.push(TWO);
    out.push(FIVE);
    out.push(FIVE);
    out.push(NEWLINE);
    assert(final(out)@ =~= old(out)@ + ppm_header(width as nat, height as nat));
}

/// Appends the line of one pixel.
pub(crate) fn push_pixel(out: &mut Vec<u8>, p: &Rgb)
    ensures
        final(out)@ == old(out)@ + ppm_pixel(*p),
{
    push_signed_decimal(out, p.r);
    out.push(SPACE);
    push_signed_decimal(out, p.g);
    out.push(SPACE);
    push_signed_decimal(out, p.b);
    out.push(NEWLINE);
    assert(final(out)@ =~= old(out)@ + ppm_pixel(*p));
}

} // verus!
