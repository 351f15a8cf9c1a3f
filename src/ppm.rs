use vstd::prelude::*;

verus! {

pub const ASCII_ZERO: u8 = 48;

pub const ASCII_TWO: u8 = 50;

pub const ASCII_THREE: u8 = 51;

pub const ASCII_FIVE: u8 = 53;

pub const ASCII_P: u8 = 80;

pub const ASCII_SPACE: u8 = 32;

pub const ASCII_NEWLINE: u8 = 10;

/// The decimal digits of `n`, most significant first, without leading zeros.
pub open spec fn decimal(n: nat) -> Seq<u8>
    decreases n,
{
    if n < 10 {
        seq![(ASCII_ZERO + n) as u8]
    } else {
        decimal(n / 10).push((ASCII_ZERO + n % 10) as u8)
    }
}

/// The header of a plain-text PPM image: `P3\n<width> <height>\n255\n`.
pub open spec fn header_text(width: nat, height: nat) -> Seq<u8> {
    seq![ASCII_P, ASCII_THREE, ASCII_NEWLINE] + decimal(width) + seq![ASCII_SPACE] + decimal(height) + seq![
        ASCII_NEWLINE,
        ASCII_TWO,
        ASCII_FIVE,
        ASCII_FIVE,
        ASCII_NEWLINE,
    ]
}

/// A color with one byte per channel.
#[derive(Clone, Copy, Debug, PartialEq, Eq, Structural)]
pub struct Rgb {
    pub r: u8,
    pub g: u8,
    pub b: u8,
}

/// The line of a plain-text PPM image that holds one pixel: `R G B\n`.
pub open spec fn rgb_text(c: Rgb) -> Seq<u8> {
    decimal(c.r as nat) + seq![ASCII_SPACE] + decimal(c.g as nat) + seq![ASCII_SPACE] + decimal(c.b as nat)
        + seq![ASCII_NEWLINE]
}

/// Appends the decimal digits of `n` to `out`.
pub fn write_decimal(out: &mut Vec<u8>, n: u32)
    ensures
        final(out)@ == old(out)@ + decimal(n as nat),
    decreases n,
{
    if n >= 10 {
        write_decimal(out, n / 10);
    }
    out.push(ASCII_ZERO + (n % 10) as u8);
    assert(out@ =~= old(out)@ + decimal(n as nat));
}

/// The header of a plain-text PPM image of the given size, with 255 as the
/// largest channel value.
pub fn ppm_header(width: u32, height: u32) -> (r: Vec<u8>)
    ensures
        r@ == header_text(width as nat, height as nat),
{
    let mut out: Vec<u8> = Vec::new();
    out.push(ASCII_P);
    out.push(ASCII_THREE);
    out.push(ASCII_NEWLINE);
    write_decimal(&mut out, width);
    out.push(ASCII_SPACE);
    write_decimal(&mut out, height);
    out.push(ASCII_NEWLINE);
    out.push(ASCII_TWO);
    out.push(ASCII_FIVE);
    out.push(ASCII_FIVE);
    out.push(ASCII_NEWLINE);
    assert(out@ =~= header_text(width as nat, height as nat));
    out
}

impl Rgb {
    /// Appends this pixel to `out` as one line of a plain-text PPM image.
    pub fn write_ppm(&self, out: &mut Vec<u8>)
        ensures
            final(out)@ == old(out)@ + rgb_text(*self),
    {
        write_decimal(out, self.r as u32);
        out.push(ASCII_SPACE);
        write_decimal(out, self.g as u32);
        out.push(ASCII_SPACE);
        write_decimal(out, self.b as u32);
        out.push(ASCII_NEWLINE);
        assert(out@ =~= old(out)@ + rgb_text(*self));
    }
}

} // verus!
