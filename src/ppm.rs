use vstd::prelude::*;

use crate::image::{Image, Pixel};

verus! {

/// The ASCII decimal digits of `n`, most significant first, without leading
/// zeros.
pub open spec fn decimal(n: nat) -> Seq<u8>
    decreases n,
{
    if n < 10 {
        seq![(48 + n) as u8]
    } else {
        decimal(n / 10).push((48 + n % 10) as u8)
    }
}

/// The text line of one pixel: its three channels in decimal, separated by a
/// space, ended by a newline.
pub open spec fn pixel_line(p: Pixel) -> Seq<u8> {
    decimal(p.r as nat) + seq![32u8] + decimal(p.g as nat) + seq![32u8] + decimal(p.b as nat)
        + seq![10u8]
}

/// The lines of `pixels`, in order.
pub open spec fn pixel_lines(pixels: Seq<Pixel>) -> Seq<u8>
    decreases pixels.len(),
{
    if pixels.len() == 0 {
        Seq::empty()
    } else {
        pixel_lines(pixels.drop_last()) + pixel_line(pixels.last())
    }
}

/// The header of a plain-text RGB image: the magic `P3`, the width and the
/// height, and the largest channel value 255, each line ended by a newline.
pub open spec fn header(width: nat, height: nat) -> Seq<u8> {
    seq![80u8, 51u8, 10u8] + decimal(width) + seq![32u8] + decimal(height) + seq![
        10u8,
        50u8,
        53u8,
        53u8,
        10u8,
    ]
}

/// Appends the decimal digits of `n`.
fn push_decimal(out: &mut Vec<u8>, n: u32)
    ensures
        final(out)@ == old(out)@ + decimal(n as nat),
    decreases n,
{
    if n >= 10 {
        push_decimal(out, n / 10);
    }
    out.push(48 + (n % 10) as u8);
    proof {
        assert(final(out)@ =~= old(out)@ + decimal(n as nat));
    }
}

/// Appends the text line of `p`.
fn push_pixel_line(out: &mut Vec<u8>, p: Pixel)
    ensures
        final(out)@ == old(out)@ + pixel_line(p),
{
    let ghost start = out@;
    push_decimal(out, p.r as u32);
    out.push(32);
    push_decimal(out, p.g as u32);
    out.push(32);
    push_decimal(out, p.b as u32);
    out.push(10);
    proof {
        assert(out@ =~= start + pixel_line(p));
    }
}

/// The image as plain-text RGB: the header, then one line per pixel,
/// row-major with the top scanline first.
pub fn encode(img: &Image) -> (r: Vec<u8>)
    ensures
        r@ == header(img@.width, img@.height) + pixel_lines(img@.pixels),
{
    let mut out: Vec<u8> = Vec::new();
    out.push(80);
    out.push(51);
    out.push(10);
    push_decimal(&mut out, img.width());
    out.push(32);
    push_decimal(&mut out, img.height());
    out.push(10);
    out.push(50);
    out.push(53);
    out.push(53);
    out.push(10);
    let ghost head = out@;
    assert(head =~= header(img@.width, img@.height));
    let pixels = img.pixels();
    let mut i: usize = 0;
    while i < pixels.len()
        invariant
            pixels@ == img@.pixels,
            i <= pixels@.len(),
            out@ == head + pixel_lines(pixels@.take(i as int)),
        decreases pixels@.len() - i,
    {
        push_pixel_line(&mut out, pixels[i]);
        proof {
            let done = pixels@.take(i as int + 1);
            assert(done.drop_last() =~= pixels@.take(i as int));
            assert(out@ =~= head + pixel_lines(done));
        }
        i = i + 1;
    }
    assert(pixels@.take(i as int) =~= pixels@);
    out
}

} // verus!
