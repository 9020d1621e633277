//! Packed 24-bit colors: red in bits 16..24, green in bits 8..16,
//! blue in bits 0..8.

use vstd::prelude::*;

verus! {

/// The packed form of a color triple: `red << 16 | green << 8 | blue`,
/// stated arithmetically.
pub open spec fn spec_pack(r: u8, g: u8, b: u8) -> u32 {
    (r * 0x10000 + g * 0x100 + b) as u32
}

/// The red channel of a packed color.
pub open spec fn spec_red(c: u32) -> u8 {
    ((c / 0x10000) % 0x100) as u8
}

/// The green channel of a packed color.
pub open spec fn spec_green(c: u32) -> u8 {
    ((c / 0x100) % 0x100) as u8
}

/// The blue channel of a packed color.
pub open spec fn spec_blue(c: u32) -> u8 {
    (c % 0x100) as u8
}

/// Packs three 8-bit channels into one 24-bit color value.
pub fn pack_rgb(r: u8, g: u8, b: u8) -> (c: u32)
    ensures
        c == spec_pack(r, g, b),
        c <= 0xFFFFFF,
{
    let c = ((r as u32) << 16) | ((g as u32) << 8) | (b as u32);
    proof {
        assert(c == spec_pack(r, g, b) && c <= 0xFFFFFF) by (bit_vector)
            requires
                c == ((r as u32) << 16) | ((g as u32) << 8) | (b as u32),
        ;
    }
    c
}

/// Extracts the red channel by shift and mask.
pub fn red_of(c: u32) -> (r: u8)
    ensures
        r == spec_red(c),
{
    let r = ((c >> 16) & 0xFF) as u8;
    proof {
        assert(r == spec_red(c)) by (bit_vector)
            requires
                r == ((c >> 16) & 0xFF) as u8,
        ;
    }
    r
}

/// Extracts the green channel by shift and mask.
pub fn green_of(c: u32) -> (g: u8)
    ensures
        g == spec_green(c),
{
    let g = ((c >> 8) & 0xFF) as u8;
    proof {
        assert(g == spec_green(c)) by (bit_vector)
            requires
                g == ((c >> 8) & 0xFF) as u8,
        ;
    }
    g
}

/// Extracts the blue channel by mask.
pub fn blue_of(c: u32) -> (b: u8)
    ensures
        b == spec_blue(c),
{
    let b = (c & 0xFF) as u8;
    proof {
        assert(b == spec_blue(c)) by (bit_vector)
            requires
                b == (c & 0xFF) as u8,
        ;
    }
    b
}

/// Decomposing a 24-bit color into its channels and packing them again
/// reproduces the original value exactly.
pub proof fn lemma_pack_unpack(c: u32)
    requires
        c <= 0xFFFFFF,
    ensures
        spec_pack(spec_red(c), spec_green(c), spec_blue(c)) == c,
{
    assert(spec_pack(spec_red(c), spec_green(c), spec_blue(c)) == c) by (bit_vector)
        requires
            c <= 0xFFFFFF,
    ;
}

/// Packing three channels and extracting them again gives the channels back.
pub proof fn lemma_unpack_pack(r: u8, g: u8, b: u8)
    ensures
        spec_red(spec_pack(r, g, b)) == r,
        spec_green(spec_pack(r, g, b)) == g,
        spec_blue(spec_pack(r, g, b)) == b,
{
    assert(spec_red(spec_pack(r, g, b)) == r && spec_green(spec_pack(r, g, b)) == g
        && spec_blue(spec_pack(r, g, b)) == b) by (bit_vector);
}

} // verus!
