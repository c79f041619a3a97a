//! Packed RGBA colours, as overlay vertices carry them.

use vstd::prelude::*;

verus! {

/// The 32-bit word whose bytes, from the most significant down, are
/// red, green, blue and alpha.
pub open spec fn packed(color: [u8; 4]) -> u32 {
    ((color[0] as u32) << 24) | ((color[1] as u32) << 16) | ((color[2] as u32) << 8)
        | (color[3] as u32)
}

/// The channel of `packed_color` that starts `shift` bits above the lowest.
pub open spec fn channel(packed_color: u32, shift: u32) -> u8 {
    ((packed_color >> shift) & 0xFF) as u8
}

/// Packs the four channels `[r, g, b, a]` into one word, red uppermost.
pub fn pack_color(color: [u8; 4]) -> (word: u32)
    ensures
        word == packed(color),
        channel(word, 24) == color[0],
        channel(word, 16) == color[1],
        channel(word, 8) == color[2],
        channel(word, 0) == color[3],
{
    let c0: u8 = color[0];
    let c1: u8 = color[1];
    let c2: u8 = color[2];
    let c3: u8 = color[3];
    let r: u32 = (c0 as u32) << 24;
    let g: u32 = (c1 as u32) << 16;
    let b: u32 = (c2 as u32) << 8;
    let a: u32 = c3 as u32;
    let word: u32 = r | g | b | a;
    proof {
        lemma_channels_of_packed(c0, c1, c2, c3);
    }
    word
}

/// Splits a packed word into `[r, g, b, a]`.
pub fn unpack_color(packed_color: u32) -> (color: [u8; 4])
    ensures
        color[0] == channel(packed_color, 24),
        color[1] == channel(packed_color, 16),
        color[2] == channel(packed_color, 8),
        color[3] == channel(packed_color, 0),
        packed(color) == packed_color,
{
    let r: u8 = ((packed_color >> 24) & 0xFF) as u8;
    let g: u8 = ((packed_color >> 16) & 0xFF) as u8;
    let b: u8 = ((packed_color >> 8) & 0xFF) as u8;
    let a: u8 = (packed_color & 0xFF) as u8;
    proof {
        lemma_packed_of_channels(packed_color);
        assert(packed_color >> 0 == packed_color) by (bit_vector);
    }
    [r, g, b, a]
}

/// Each channel read back from a packed word is the byte that went in.
pub proof fn lemma_channels_of_packed(r: u8, g: u8, b: u8, a: u8)
    ensures
        channel(packed([r, g, b, a]), 24) == r,
        channel(packed([r, g, b, a]), 16) == g,
        channel(packed([r, g, b, a]), 8) == b,
        channel(packed([r, g, b, a]), 0) == a,
{
    let w: u32 = ((r as u32) << 24) | ((g as u32) << 16) | ((b as u32) << 8) | (a as u32);
    assert(packed([r, g, b, a]) == w);
    assert((((w >> 24) & 0xFF) as u8) == r) by (bit_vector)
        requires
            w == ((r as u32) << 24) | ((g as u32) << 16) | ((b as u32) << 8) | (a as u32),
    ;
    assert((((w >> 16) & 0xFF) as u8) == g) by (bit_vector)
        requires
            w == ((r as u32) << 24) | ((g as u32) << 16) | ((b as u32) << 8) | (a as u32),
    ;
    assert((((w >> 8) & 0xFF) as u8) == b) by (bit_vector)
        requires
            w == ((r as u32) << 24) | ((g as u32) << 16) | ((b as u32) << 8) | (a as u32),
    ;
    assert((((w >> 0) & 0xFF) as u8) == a) by (bit_vector)
        requires
            w == ((r as u32) << 24) | ((g as u32) << 16) | ((b as u32) << 8) | (a as u32),
    ;
}

/// Packing the four channels of a word gives the word back.
pub proof fn lemma_packed_of_channels(w: u32)
    ensures
        packed([channel(w, 24), channel(w, 16), channel(w, 8), channel(w, 0)]) == w,
{
    let r: u8 = ((w >> 24) & 0xFF) as u8;
    let g: u8 = ((w >> 16) & 0xFF) as u8;
    let b: u8 = ((w >> 8) & 0xFF) as u8;
    let a: u8 = ((w >> 0) & 0xFF) as u8;
    assert((((r as u32) << 24) | ((g as u32) << 16) | ((b as u32) << 8) | (a as u32)) == w)
        by (bit_vector)
        requires
            r == ((w >> 24) & 0xFF) as u8,
            g == ((w >> 16) & 0xFF) as u8,
            b == ((w >> 8) & 0xFF) as u8,
            a == ((w >> 0) & 0xFF) as u8,
    ;
}

} // verus!
