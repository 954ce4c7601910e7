//! The binary portable pixmap encoding of an image.
//!
//! The file begins with the two characters that mark the format, the letter `P`
//! and the digit `6`, and a line feed; then come the width and the height in
//! decimal with one space between them, a line feed, the largest value of a
//! channel, `255`, and a line feed. The pixels follow as they are: three bytes
//! each, row by row, without padding.

use vstd::prelude::*;

verus! {

/// The character of a decimal digit.
pub open spec fn digit(d: nat) -> u8 {
    (48 + d) as u8
}

/// A number in decimal: its digits, most significant first, as characters,
/// without leading zeros.
pub open spec fn decimal(n: nat) -> Seq<u8>
    decreases n,
{
    if n < 10 {
        seq![digit(n)]
    } else {
        decimal(n / 10).push(digit(n % 10))
    }
}

/// The header of an image of the given size.
pub open spec fn ppm_header(width: u32, height: u32) -> Seq<u8> {
    seq![0x50u8, 0x36u8, 0x0Au8] + decimal(width as nat) + seq![0x20u8] + decimal(height as nat)
        + seq![0x0Au8, 0x32u8, 0x35u8, 0x35u8, 0x0Au8]
}

/// The whole file: the header, then the pixels.
pub open spec fn ppm_bytes(width: u32, height: u32, pixels: Seq<u8>) -> Seq<u8> {
    ppm_header(width, height) + pixels
}

/// Appends `n` in decimal.
fn push_decimal(out: &mut Vec<u8>, n: u32)
    ensures
        final(out)@ == old(out)@ + decimal(n as nat),
    decreases n,
{
    if n >= 10 {
        push_decimal(out, n / 10);
    }
    let d: u8 = (n % 10) as u8;
    out.push(48 + d);
    proof {
        if n >= 10 {
            assert(final(out)@ =~= old(out)@ + decimal((n / 10) as nat).push(digit((n % 10) as nat)));
        } else {
            assert(final(out)@ =~= old(out)@ + seq![digit(n as nat)]);
        }
    }
}

/// Encodes an image as a binary portable pixmap. The pixels are written as they
/// are given; their number is not held against the size.
pub fn encode_ppm(width: u32, height: u32, pixels: &Vec<u8>) -> (file: Vec<u8>)
    ensures
        file@ == ppm_bytes(width, height, pixels@),
{
    let mut file: Vec<u8> = Vec::new();
    file.push(0x50);
    file.push(0x36);
    file.push(0x0A);
    push_decimal(&mut file, width);
    file.push(0x20);
    push_decimal(&mut file, height);
    file.push(0x0A);
    file.push(0x32);
    file.push(0x35);
    file.push(0x35);
    file.push(0x0A);
    assert(file@ =~= ppm_header(width, height));
    let ghost header = file@;
    let mut i: usize = 0;
    while i < pixels.len()
        invariant
            i <= pixels@.len(),
            file@ == header + pixels@.subrange(0, i as int),
        decreases pixels@.len() - i,
    {
        file.push(pixels[i]);
        i += 1;
        assert(file@ =~= header + pixels@.subrange(0, i as int));
    }
    assert(pixels@.subrange(0, i as int) =~= pixels@);
    file
}

} // verus!
