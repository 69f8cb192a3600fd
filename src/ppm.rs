//! The plain-text PPM image format that the renderer writes: a header,
//! then one `R G B` line per pixel, rows from the top of the image down and
//! each row from left to right.

use vstd::prelude::*;

verus! {

/// ASCII `0`; the other digits follow it.
pub const ZERO: u8 = 48;

/// ASCII space, between the numbers of a line.
pub const SPACE: u8 = 32;

/// ASCII line feed, at the end of each line.
pub const NEWLINE: u8 = 10;

/// ASCII `P`, which with the digit 3 after it marks a plain-text PPM file.
pub const MAGIC: u8 = 80;

/// The ASCII decimal digits of `n`, without leading zeros.
pub open spec fn decimal(n: nat) -> Seq<u8>
    decreases n,
{
    if n < 10 {
        seq![(ZERO + n) as u8]
    } else {
        decimal(n / 10) + seq![(ZERO + n % 10) as u8]
    }
}

/// The magic number, `<width> <height>` and the largest channel value 255,
/// each on a line of its own.
pub open spec fn header_spec(width: nat, height: nat) -> Seq<u8> {
    seq![MAGIC, (ZERO + 3) as u8, NEWLINE] + decimal(width) + seq![SPACE] + decimal(height) + seq![
        NEWLINE,
        (ZERO + 2) as u8,
        (ZERO + 5) as u8,
        (ZERO + 5) as u8,
        NEWLINE,
    ]
}

/// `R G B\n` for one pixel.
pub open spec fn pixel_line_spec(r: nat, g: nat, b: nat) -> Seq<u8> {
    decimal(r) + seq![SPACE] + decimal(g) + seq![SPACE] + decimal(b) + seq![NEWLINE]
}

/// Appends the decimal digits of `n` to `out`.
fn push_decimal(out: &mut Vec<u8>, n: u32)
    ensures
        final(out)@ == old(out)@ + decimal(n as nat),
    decreases n,
{
    let ghost start = out@;
    if n >= 10 {
        push_decimal(out, n / 10);
    }
    out.push(ZERO + (n % 10) as u8);
    assert(out@ =~= start + decimal(n as nat));
}

/// The header of a `width` by `height` image, colour channels up to 255.
pub fn ppm_header(width: u32, height: u32) -> (r: Vec<u8>)
    ensures
        r@ == header_spec(width as nat, height as nat),
{
    let mut out: Vec<u8> = Vec::new();
    out.push(MAGIC);
    out.push(ZERO + 3);
    out.push(NEWLINE);
    push_decimal(&mut out, width);
    out.push(SPACE);
    push_decimal(&mut out, height);
    out.push(NEWLINE);
    out.push(ZERO + 2);
    out.push(ZERO + 5);
    out.push(ZERO + 5);
    out.push(NEWLINE);
    assert(out@ =~= header_spec(width as nat, height as nat));
    out
}

/// The line that encodes one pixel.
pub fn pixel_line(r: u8, g: u8, b: u8) -> (line: Vec<u8>)
    ensures
        line@ == pixel_line_spec(r as nat, g as nat, b as nat),
{
    let mut out: Vec<u8> = Vec::new();
    push_decimal(&mut out, r as u32);
    out.push(SPACE);
    push_decimal(&mut out, g as u32);
    out.push(SPACE);
    push_decimal(&mut out, b as u32);
    out.push(NEWLINE);
    assert(out@ =~= pixel_line_spec(r as nat, g as nat, b as nat));
    out
}

/// The image coordinates `(x, y)` of the pixel written at position `index`
/// of a `width` by `height` image, with `y` counted from the bottom row.
pub fn pixel_at(index: u64, width: u32, height: u32) -> (r: (u32, u32))
    requires
        index < width as int * height as int,
    ensures
        r.0 == index as int % width as int,
        r.1 == height - 1 - index as int / width as int,
        r.0 < width,
        r.1 < height,
{
    let w = width as u64;
    assert(w > 0) by (nonlinear_arith)
        requires
            index < width as int * height as int,
            w == width,
    ;
    let row = index / w;
    assert(row < height) by (nonlinear_arith)
        requires
            index < w * height as int,
            row == index / w,
            w > 0,
    ;
    ((index % w) as u32, height - 1 - row as u32)
}

} // verus!
