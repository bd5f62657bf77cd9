//! The image as text: the plain PPM format.
//!
//! The file starts with `P3`, the width and height, and the largest channel
//! value. Then every pixel follows on a line of its own, as three whole
//! numbers: red, green and blue.
use vstd::prelude::*;
use crate::vec::Vec3;

verus! {

/// The largest value of a channel that the header announces.
pub const MAX_CHANNEL: u32 = 255;

/// The character `0`.
pub const ZERO_CHAR: u8 = 0x30;

/// A blank.
pub const SPACE: u8 = 0x20;

/// A line feed.
pub const NEWLINE: u8 = 0x0a;

/// The numeral of `n` in base ten, without leading zeros.
pub open spec fn decimal(n: nat) -> Seq<u8>
    decreases n,
{
    if n < 10 {
        seq![(ZERO_CHAR + n) as u8]
    } else {
        decimal(n / 10).push((ZERO_CHAR + n % 10) as u8)
    }
}

/// The number that a numeral in base ten stands for.
pub open spec fn number(text: Seq<u8>) -> nat
    decreases text.len(),
{
    if text.len() == 0 {
        0
    } else {
        (10 * number(text.drop_last()) + (text.last() - ZERO_CHAR)) as nat
    }
}

/// The header of an image `nx` wide and `ny` high.
pub open spec fn spec_header(nx: u32, ny: u32) -> Seq<u8> {
    seq![0x50u8, 0x33u8, NEWLINE] + decimal(nx as nat) + seq![SPACE] + decimal(ny as nat)
        + seq![NEWLINE] + decimal(MAX_CHANNEL as nat) + seq![NEWLINE]
}

/// The line of a pixel with these three channel values.
pub open spec fn spec_pixel_line(red: u32, green: u32, blue: u32) -> Seq<u8> {
    decimal(red as nat) + seq![SPACE] + decimal(green as nat) + seq![SPACE] + decimal(
        blue as nat,
    ) + seq![NEWLINE]
}

/// Appends the numeral of `n` to `out`.
pub fn push_decimal(out: &mut Vec<u8>, n: u32)
    ensures
        final(out)@ == old(out)@ + decimal(n as nat),
    decreases n,
{
    if n >= 10 {
        push_decimal(out, n / 10);
    }
    out.push(ZERO_CHAR + (n % 10) as u8);
}

/// The header: `P3`, then the width and the height on one line, then the
/// largest channel value.
pub fn header(nx: u32, ny: u32) -> (r: Vec<u8>)
    ensures
        r@ == spec_header(nx, ny),
{
    let mut out: Vec<u8> = Vec::new();
    out.push(0x50);
    out.push(0x33);
    out.push(NEWLINE);
    push_decimal(&mut out, nx);
    out.push(SPACE);
    push_decimal(&mut out, ny);
    out.push(NEWLINE);
    push_decimal(&mut out, MAX_CHANNEL);
    out.push(NEWLINE);
    out
}

/// The line of one pixel: its three channel values, separated by blanks.
pub fn pixel_line(red: u32, green: u32, blue: u32) -> (r: Vec<u8>)
    ensures
        r@ == spec_pixel_line(red, green, blue),
{
    let mut out: Vec<u8> = Vec::new();
    push_decimal(&mut out, red);
    out.push(SPACE);
    push_decimal(&mut out, green);
    out.push(SPACE);
    push_decimal(&mut out, blue);
    out.push(NEWLINE);
    out
}

/// The line of a pixel of this colour. Each channel is cut down to its whole
/// part; nothing holds it below the largest channel value.
pub fn encode_pixel(color: Vec3) -> (r: Vec<u8>)
    ensures
        r@ == spec_pixel_line(color.x.to_u32(), color.y.to_u32(), color.z.to_u32()),
{
    pixel_line(color.x.to_u32(), color.y.to_u32(), color.z.to_u32())
}

/// A numeral reads back as the number it was written for.
pub proof fn law_decimal_reads_back(n: nat)
    ensures
        number(decimal(n)) == n,
    decreases n,
{
    let text = decimal(n);
    if n >= 10 {
        law_decimal_reads_back(n / 10);
        assert(text.drop_last() == decimal(n / 10));
    }
    assert(number(text) == 10 * number(text.drop_last()) + (text.last() - ZERO_CHAR));
}

/// A numeral is made of digits, has at least one, and starts with `0` only
/// where it is the numeral of zero.
pub proof fn law_decimal_is_digits(n: nat)
    ensures
        decimal(n).len() >= 1,
        forall|i: int| 0 <= i < decimal(n).len() ==> ZERO_CHAR <= #[trigger] decimal(n)[i] <= 0x39,
        n > 0 ==> decimal(n)[0] != ZERO_CHAR,
    decreases n,
{
    if n >= 10 {
        law_decimal_is_digits(n / 10);
    }
}

} // verus!
