//! Plain-text serialization of a quantized image.
//!
//! The format is a textual header `P3`, the image dimensions, the maximum
//! channel value `255`, and then one line of three decimal channel values
//! per pixel. Scanlines are emitted top to bottom, so the buffer's rows are
//! walked from `height - 1` down to `0`.

use vstd::prelude::*;

use crate::bitmap::Bitmap;
use crate::types::Size;

verus! {

/// A pixel with its channels quantized to 8 bits, as the format emits them.
#[derive(Clone, Copy, Debug, PartialEq, Eq, Structural)]
pub struct Rgb {
    pub r: u8,
    pub g: u8,
    pub b: u8,
}

pub struct PPM;

/// The decimal digits of `n`, most significant first, as ASCII bytes.
pub open spec fn dec_digits(n: nat) -> Seq<u8>
    decreases n,
{
    if n < 10 {
        seq![(48 + n) as u8]
    } else {
        dec_digits(n / 10).push((48 + n % 10) as u8)
    }
}

/// One pixel's line: the three channel values separated by spaces.
pub open spec fn cell_bytes(p: Rgb) -> Seq<u8> {
    dec_digits(p.r as nat) + seq![32u8] + dec_digits(p.g as nat) + seq![32u8] + dec_digits(
        p.b as nat,
    ) + seq![10u8]
}

/// The header: `P3`, the dimensions, and the maximum channel value.
pub open spec fn header_bytes(size: Size) -> Seq<u8> {
    seq![80u8, 51u8, 10u8] + dec_digits(size.width as nat) + seq![32u8] + dec_digits(
        size.height as nat,
    ) + seq![10u8, 50u8, 53u8, 53u8, 10u8]
}

/// The cells of row `y` at columns `0 .. x`, left to right.
pub open spec fn row_prefix_bytes(b: Bitmap<Rgb>, y: int, x: int) -> Seq<u8>
    decreases x,
{
    if x <= 0 {
        Seq::empty()
    } else {
        row_prefix_bytes(b, y, x - 1) + cell_bytes(b.pixel(x - 1, y))
    }
}

/// The rows `height - 1` down to `y`, in emission order.
pub open spec fn rows_down_bytes(b: Bitmap<Rgb>, y: int) -> Seq<u8>
    decreases b.spec_size().height - y,
{
    if y < 0 || y >= b.spec_size().height {
        Seq::empty()
    } else {
        rows_down_bytes(b, y + 1) + row_prefix_bytes(b, y, b.spec_size().width as int)
    }
}

/// The whole serialized image.
pub open spec fn ppm_bytes(b: Bitmap<Rgb>) -> Seq<u8> {
    header_bytes(b.spec_size()) + rows_down_bytes(b, 0)
}

impl PPM {
    /// Serialize the image; the caller hands the bytes to its output.
    pub fn encode(self, bitmap: &Bitmap<Rgb>) -> (r: Vec<u8>)
        requires
            bitmap.wf(),
        ensures
            r@ == ppm_bytes(*bitmap),
    {
        let ghost size = bitmap.spec_size();
        let mut out: Vec<u8> = Vec::new();
        out.push(80);
        out.push(51);
        out.push(10);
        push_decimal(&mut out, bitmap.width());
        out.push(32);
        push_decimal(&mut out, bitmap.height());
        out.push(10);
        out.push(50);
        out.push(53);
        out.push(53);
        out.push(10);
        proof {
            assert(out@ =~= header_bytes(size));
            assert(rows_down_bytes(*bitmap, bitmap.spec_size().height as int) =~= Seq::empty());
            assert(out@ =~= header_bytes(size) + rows_down_bytes(
                *bitmap,
                bitmap.spec_size().height as int,
            ));
        }
        let width = bitmap.width();
        let height = bitmap.height();
        let mut y: u32 = height;
        while y > 0
            invariant
                bitmap.wf(),
                size == bitmap.spec_size(),
                width == size.width,
                height == size.height,
                y <= height,
                out@ == header_bytes(size) + rows_down_bytes(*bitmap, y as int),
            decreases y,
        {
            y = y - 1;
            let mut x: u32 = 0;
            proof {
                assert(row_prefix_bytes(*bitmap, y as int, 0) =~= Seq::empty());
                assert(out@ =~= header_bytes(size) + rows_down_bytes(*bitmap, y as int + 1)
                    + row_prefix_bytes(*bitmap, y as int, 0));
            }
            while x < width
                invariant
                    bitmap.wf(),
                    size == bitmap.spec_size(),
                    width == size.width,
                    height == size.height,
                    y < height,
                    x <= width,
                    out@ == header_bytes(size) + rows_down_bytes(*bitmap, y as int + 1)
                        + row_prefix_bytes(*bitmap, y as int, x as int),
                decreases width - x,
            {
                let p = bitmap.get(x, y);
                push_decimal(&mut out, p.r as u32);
                out.push(32);
                push_decimal(&mut out, p.g as u32);
                out.push(32);
                push_decimal(&mut out, p.b as u32);
                out.push(10);
                proof {
                    assert(out@ =~= header_bytes(size) + rows_down_bytes(*bitmap, y as int + 1)
                        + row_prefix_bytes(*bitmap, y as int, x as int + 1));
                }
                x = x + 1;
            }
            proof {
                assert(out@ =~= header_bytes(size) + rows_down_bytes(*bitmap, y as int));
            }
        }
        out
    }
}

/// Append the decimal digits of `n`, most significant first.
fn push_decimal(out: &mut Vec<u8>, n: u32)
    ensures
        final(out)@ == old(out)@ + dec_digits(n as nat),
    decreases n,
{
    if n >= 10 {
        push_decimal(out, n / 10);
    }
    out.push(48 + (n % 10) as u8);
    proof {
        assert(out@ =~= old(out)@ + dec_digits(n as nat));
    }
}

} // verus!
