use vstd::prelude::*;

use crate::ppm::{header_text, rgb_text, ppm_header, Rgb};

verus! {

/// `floor(255.99 * num / den)`: the byte for a channel of intensity
/// `num / den`, with 255.99 written as the fraction 25599 / 100.
pub open spec fn quantize_spec(num: nat, den: nat) -> nat {
    (25599 * num) / (100 * den)
}

/// The color of pixel `(i, j)` of a `width` by `height` gradient, with row `j`
/// counted from the bottom: red grows to the right, green grows upwards, and
/// blue stays at one quarter.
pub open spec fn gradient_color(i: nat, j: nat, width: nat, height: nat) -> Rgb {
    Rgb {
        r: quantize_spec(i, (width - 1) as nat) as u8,
        g: quantize_spec(j, (height - 1) as nat) as u8,
        b: quantize_spec(1, 4) as u8,
    }
}

/// The first `n` pixels of row `j`, from left to right, as PPM lines.
pub open spec fn row_text(j: nat, width: nat, height: nat, n: nat) -> Seq<u8>
    decreases n,
{
    if n == 0 {
        Seq::empty()
    } else {
        row_text(j, width, height, (n - 1) as nat) + rgb_text(
            gradient_color((n - 1) as nat, j, width, height),
        )
    }
}

/// The top `k` rows of the image, from the top down, as PPM lines.
pub open spec fn rows_text(width: nat, height: nat, k: nat) -> Seq<u8>
    decreases k,
{
    if k == 0 {
        Seq::empty()
    } else {
        rows_text(width, height, (k - 1) as nat) + row_text(
            (height - k) as nat,
            width,
            height,
            width,
        )
    }
}

/// The whole gradient as a plain-text PPM image.
pub open spec fn gradient_text(width: nat, height: nat) -> Seq<u8> {
    header_text(width, height) + rows_text(width, height, height)
}

/// A channel intensity of at most one gives a byte.
proof fn lemma_quantize_bound(num: nat, den: nat)
    requires
        0 < den,
        num <= den,
    ensures
        quantize_spec(num, den) <= 255,
{
    assert((25599 * num) / (100 * den) < 256) by (nonlinear_arith)
        requires
            0 < den,
            num <= den,
    ;
}

/// On 255 steps the byte of step `n` is `n` itself.
pub proof fn lemma_quantize_steps_of_255(n: nat)
    requires
        n <= 255,
    ensures
        quantize_spec(n, 255) == n,
{
    assert((25599 * n) / (100 * 255) == n) by (nonlinear_arith)
        requires
            n <= 255,
    ;
}

/// On a 256 by 256 gradient, pixel `(i, j)` has the color `(i, j, 63)`.
pub proof fn lemma_square_gradient_colors(i: nat, j: nat)
    requires
        i < 256,
        j < 256,
    ensures
        gradient_color(i, j, 256, 256) == (Rgb { r: i as u8, g: j as u8, b: 63 }),
{
    lemma_quantize_steps_of_255(i);
    lemma_quantize_steps_of_255(j);
    assert(25599 * 1 / (100 * 4) == 63) by (nonlinear_arith);
}

/// The byte for a channel of intensity `num / den`: `floor(255.99 * num / den)`.
pub fn quantize(num: u32, den: u32) -> (r: u8)
    requires
        0 < den,
        num <= den,
    ensures
        r == quantize_spec(num as nat, den as nat),
{
    proof {
        lemma_quantize_bound(num as nat, den as nat);
    }
    let q: u64 = (25599 * num as u64) / (100 * den as u64);
    q as u8
}

/// The color of pixel `(i, j)` of a `width` by `height` gradient, row `j`
/// counted from the bottom.
pub fn gradient_pixel(i: u32, j: u32, width: u32, height: u32) -> (r: Rgb)
    requires
        2 <= width,
        2 <= height,
        i < width,
        j < height,
    ensures
        r == gradient_color(i as nat, j as nat, width as nat, height as nat),
{
    Rgb { r: quantize(i, width - 1), g: quantize(j, height - 1), b: quantize(1, 4) }
}

/// Appends row `j` of the gradient to `out`, from left to right.
fn write_row(out: &mut Vec<u8>, j: u32, width: u32, height: u32)
    requires
        2 <= width,
        2 <= height,
        j < height,
    ensures
        final(out)@ == old(out)@ + row_text(j as nat, width as nat, height as nat, width as nat),
{
    let mut i: u32 = 0;
    while i < width
        invariant
            2 <= width,
            2 <= height,
            j < height,
            i <= width,
            out@ == old(out)@ + row_text(j as nat, width as nat, height as nat, i as nat),
        decreases width - i,
    {
        let c = gradient_pixel(i, j, width, height);
        c.write_ppm(out);
        assert(out@ =~= old(out)@ + row_text(j as nat, width as nat, height as nat, (i + 1) as nat));
        i = i + 1;
    }
}

/// The `width` by `height` gradient as a plain-text PPM image: the header,
/// then the rows from the top down, each from left to right.
pub fn gradient_ppm(width: u32, height: u32) -> (r: Vec<u8>)
    requires
        2 <= width,
        2 <= height,
    ensures
        r@ == gradient_text(width as nat, height as nat),
{
    let mut out = ppm_header(width, height);
    let mut k: u32 = 0;
    while k < height
        invariant
            2 <= width,
            2 <= height,
            k <= height,
            out@ == header_text(width as nat, height as nat) + rows_text(
                width as nat,
                height as nat,
                k as nat,
            ),
        decreases height - k,
    {
        write_row(&mut out, height - 1 - k, width, height);
        assert(out@ =~= header_text(width as nat, height as nat) + rows_text(
            width as nat,
            height as nat,
            (k + 1) as nat,
        ));
        k = k + 1;
    }
    out
}

} // verus!
