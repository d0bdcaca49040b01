use vstd::prelude::*;

verus! {

/// The value of a pixel word with the given channels: blue in the lowest
/// byte, then green, red and alpha.
pub open spec fn bgra_word(red: u8, green: u8, blue: u8, alpha: u8) -> int {
    blue as int + green as int * 0x100 + red as int * 0x1_0000 + alpha as int * 0x100_0000
}

/// Packs four 8-bit channels into one pixel word, blue in the lowest byte,
/// then green, red and alpha.
pub fn rgba_to_bgra_u32(red: u8, green: u8, blue: u8, alpha: u8) -> (r: u32)
    ensures
        r == bgra_word(red, green, blue, alpha),
{
    let b = blue as u32;
    let g = green as u32;
    let rd = red as u32;
    let a = alpha as u32;
    let r = b | (g << 8u32) | (rd << 16u32) | (a << 24u32);
    assert(r == b + g * 0x100 + rd * 0x1_0000 + a * 0x100_0000) by (bit_vector)
        requires
            r == b | (g << 8u32) | (rd << 16u32) | (a << 24u32),
            b < 256,
            g < 256,
            rd < 256,
            a < 256,
    ;
    r
}

} // verus!
