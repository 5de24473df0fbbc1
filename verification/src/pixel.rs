//! The 16-bit packed RGB pixel format and its wire encoding.
//!
//! A native pixel packs red, green and blue into 16 bits (5-6-5).  On the
//! wire the same 16 bits travel most significant byte first; the conversion
//! is a pure bit repack, never a lossy resample.

use vstd::prelude::*;

verus! {

/// A native pixel of the software renderer: 16-bit packed RGB with 5 bits
/// of red, 6 of green and 5 of blue.
#[derive(Clone, Copy, PartialEq, Eq, Structural, Debug)]
pub struct Rgb565Pixel(pub u16);

/// The red component: the top 5 bits.
pub open spec fn red_of(p: u16) -> u16 {
    (p >> 11) & 0x1f
}

/// The green component: the middle 6 bits.
pub open spec fn green_of(p: u16) -> u16 {
    (p >> 5) & 0x3f
}

/// The blue component: the low 5 bits.
pub open spec fn blue_of(p: u16) -> u16 {
    p & 0x1f
}

/// The first byte of a pixel on the wire: its most significant byte.
pub open spec fn wire_hi(p: u16) -> u8 {
    (p >> 8) as u8
}

/// The second byte of a pixel on the wire: its least significant byte.
pub open spec fn wire_lo(p: u16) -> u8 {
    (p & 0xff) as u8
}

/// The two-byte wire encoding of one pixel, most significant byte first.
pub open spec fn wire_bytes(p: Rgb565Pixel) -> Seq<u8> {
    seq![wire_hi(p.0), wire_lo(p.0)]
}

/// The byte stream for a pixel sequence: each pixel's two wire bytes, in
/// pixel order.
pub open spec fn wire_stream(s: Seq<Rgb565Pixel>) -> Seq<u8>
    decreases s.len(),
{
    if s.len() == 0 {
        Seq::empty()
    } else {
        wire_bytes(s[0]) + wire_stream(s.drop_first())
    }
}

/// Packs three components into one native pixel.
pub fn pack_rgb565(r: u8, g: u8, b: u8) -> (p: Rgb565Pixel)
    requires
        r < 32,
        g < 64,
        b < 32,
    ensures
        red_of(p.0) == r as u16,
        green_of(p.0) == g as u16,
        blue_of(p.0) == b as u16,
{
    let v: u16 = ((r as u16) << 11) | ((g as u16) << 5) | (b as u16);
    proof {
        assert(((((r as u16) << 11) | ((g as u16) << 5) | (b as u16)) >> 11) & 0x1f
            == r as u16) by (bit_vector)
            requires
                r < 32,
                g < 64,
                b < 32,
        ;
        assert(((((r as u16) << 11) | ((g as u16) << 5) | (b as u16)) >> 5) & 0x3f
            == g as u16) by (bit_vector)
            requires
                r < 32,
                g < 64,
                b < 32,
        ;
        assert((((r as u16) << 11) | ((g as u16) << 5) | (b as u16)) & 0x1f
            == b as u16) by (bit_vector)
            requires
                r < 32,
                g < 64,
                b < 32,
        ;
    }
    Rgb565Pixel(v)
}

/// Converts one native pixel to its two wire bytes, most significant first.
pub fn wire_encode(p: Rgb565Pixel) -> (r: (u8, u8))
    ensures
        r.0 == wire_hi(p.0),
        r.1 == wire_lo(p.0),
{
    ((p.0 >> 8) as u8, (p.0 & 0xff) as u8)
}

/// The wire encoding is a pure bit reinterpretation: the two wire bytes
/// reassemble to exactly the native 16-bit value.
pub proof fn lemma_wire_lossless(p: u16)
    ensures
        ((wire_hi(p) as u16) << 8) | (wire_lo(p) as u16) == p,
{
    assert((((p >> 8) as u8 as u16) << 8) | ((p & 0xff) as u8 as u16) == p) by (bit_vector);
}

/// The packing is lossless: the three components reassemble to exactly the
/// packed value, so no bit of color is dropped on either side.
pub proof fn lemma_pack_lossless(p: u16)
    ensures
        (red_of(p) << 11) | (green_of(p) << 5) | blue_of(p) == p,
{
    assert(((((p >> 11) & 0x1f) << 11) | (((p >> 5) & 0x3f) << 5) | (p & 0x1f)) == p)
        by (bit_vector);
}

/// Appending one pixel appends exactly its two wire bytes.
pub proof fn lemma_wire_stream_push(s: Seq<Rgb565Pixel>, x: Rgb565Pixel)
    ensures
        wire_stream(s.push(x)) == wire_stream(s) + wire_bytes(x),
    decreases s.len(),
{
    if s.len() == 0 {
        assert(s.push(x)[0] == x);
        assert(s.push(x).drop_first() =~= Seq::<Rgb565Pixel>::empty());
        assert(wire_stream(s.push(x).drop_first()) == Seq::<u8>::empty());
        assert(wire_stream(s.push(x)) == wire_bytes(x) + Seq::<u8>::empty());
        assert(wire_bytes(x) + Seq::<u8>::empty() =~= wire_stream(s) + wire_bytes(x));
    } else {
        lemma_wire_stream_push(s.drop_first(), x);
        assert(s.push(x).drop_first() =~= s.drop_first().push(x));
        assert(s.push(x)[0] == s[0]);
        assert(wire_stream(s.push(x))
            == wire_bytes(s[0]) + (wire_stream(s.drop_first()) + wire_bytes(x)));
        assert(wire_bytes(s[0]) + (wire_stream(s.drop_first()) + wire_bytes(x))
            =~= (wire_bytes(s[0]) + wire_stream(s.drop_first())) + wire_bytes(x));
    }
}

/// The wire stream carries exactly two bytes per pixel.
pub proof fn lemma_wire_stream_len(s: Seq<Rgb565Pixel>)
    ensures
        wire_stream(s).len() == 2 * s.len(),
    decreases s.len(),
{
    if s.len() > 0 {
        lemma_wire_stream_len(s.drop_first());
    }
}

} // verus!
