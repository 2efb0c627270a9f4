//! The dual-representation color model: an 8-bit-per-channel format packed
//! into 32 bits and a 5-5-5-1 format packed into 16 bits, with the lossy and
//! widening conversions between them, plus the `Surface` pixel buffer.

use vstd::prelude::*;

verus! {

use crate::system;
use crate::system::SystemAlloc;
use crate::system::align_up_spec;

/// The packed layout of the 8-8-8-8 format: `R<<24 | G<<16 | B<<8 | A`.
pub open spec fn pack_a(r: u8, g: u8, b: u8, a: u8) -> u32 {
    ((r as u32) << 24) | ((g as u32) << 16) | ((b as u32) << 8) | (a as u32)
}

/// The red channel of a packed 8-8-8-8 word.
pub open spec fn chan_a_r(w: u32) -> u8 {
    (w >> 24) as u8
}

/// The green channel of a packed 8-8-8-8 word.
pub open spec fn chan_a_g(w: u32) -> u8 {
    (w >> 16) as u8
}

/// The blue channel of a packed 8-8-8-8 word.
pub open spec fn chan_a_b(w: u32) -> u8 {
    (w >> 8) as u8
}

/// The alpha channel of a packed 8-8-8-8 word.
pub open spec fn chan_a_a(w: u32) -> u8 {
    w as u8
}

/// A color with four independent 8-bit channels, stored only as its packed
/// 32-bit word.
#[derive(Clone, Copy, PartialEq, Eq, Structural, Debug)]
pub struct RGBA8888 {
    packed: u32,
}

impl View for RGBA8888 {
    type V = u32;

    closed spec fn view(&self) -> u32 {
        self.packed
    }
}

impl RGBA8888 {
    /// Reinterprets a 32-bit word as a packed color; every bit pattern is
    /// valid.
    pub fn from_u32(c: u32) -> (r: Self)
        ensures
            r@ == c,
    {
        Self { packed: c }
    }

    /// Packs four 8-bit channels.
    pub fn new(r: u8, g: u8, b: u8, a: u8) -> (c: Self)
        ensures
            c@ == pack_a(r, g, b, a),
    {
        Self::from_u32(((r as u32) << 24) | ((g as u32) << 16) | ((b as u32) << 8) | (a as u32))
    }

    /// Reinterprets the color as its packed 32-bit word.
    pub fn into_u32(self) -> (r: u32)
        ensures
            r == self@,
    {
        self.packed
    }

    /// The red channel, right-aligned.
    pub fn r(self) -> (r: u8)
        ensures
            r == chan_a_r(self@),
    {
        (self.packed >> 24) as u8
    }

    /// The green channel, right-aligned.
    pub fn g(self) -> (r: u8)
        ensures
            r == chan_a_g(self@),
    {
        (self.packed >> 16) as u8
    }

    /// The blue channel, right-aligned.
    pub fn b(self) -> (r: u8)
        ensures
            r == chan_a_b(self@),
    {
        (self.packed >> 8) as u8
    }

    /// The alpha channel, right-aligned.
    pub fn a(self) -> (r: u8)
        ensures
            r == chan_a_a(self@),
    {
        self.packed as u8
    }

    /// Packs four 8-bit channels after remapping each color channel through
    /// the squaring gamma transform; alpha is untouched.
    pub fn linear(r: u8, g: u8, b: u8, a: u8) -> (c: Self)
        ensures
            c@ == pack_a(gamma_a(r), gamma_a(g), gamma_a(b), a),
    {
        let r32 = r as u32;
        let g32 = g as u32;
        let b32 = b as u32;
        proof {
            assert(r32 < 256 && g32 < 256 && b32 < 256 ==> r32 * r32 < 0x10000 && g32 * g32
                < 0x10000 && b32 * b32 < 0x10000) by (bit_vector);
        }
        Self::new(
            ((r32 * r32) >> 8) as u8,
            ((g32 * g32) >> 8) as u8,
            ((b32 * b32) >> 8) as u8,
            a,
        )
    }

    /// Widens a 5-5-5-1 color: each color channel is expanded by bit
    /// replication and the alpha bit becomes `0x00` or `0xFF`.
    pub fn from_rgba5551(c: RGBA5551) -> (v: Self)
        ensures
            v@ == widen_b_to_a(c@),
    {
        let c16 = c.into_u16();
        let r = ((c16 >> 11) & 0x1F) as u8;
        let g = ((c16 >> 6) & 0x1F) as u8;
        let b = ((c16 >> 1) & 0x1F) as u8;
        let a: u8 = if (c16 & 0x1) != 0 {
            0xFF
        } else {
            0
        };
        Self::new((r << 3) | (r >> 2), (g << 3) | (g >> 2), (b << 3) | (b >> 2), a)
    }

    /// Black, opaque.
    pub fn black() -> (c: Self)
        ensures
            c@ == 0x0000_00FFu32,
    {
        Self::from_u32(0x0000_00FF)
    }

    /// Full-intensity red, opaque.
    pub fn red() -> (c: Self)
        ensures
            c@ == 0xFF00_00FFu32,
    {
        Self::from_u32(0xFF00_00FF)
    }

    /// Full-intensity green, opaque.
    pub fn green() -> (c: Self)
        ensures
            c@ == 0x00FF_00FFu32,
    {
        Self::from_u32(0x00FF_00FF)
    }

    /// Full-intensity blue, opaque.
    pub fn blue() -> (c: Self)
        ensures
            c@ == 0x0000_FFFFu32,
    {
        Self::from_u32(0x0000_FFFF)
    }

    /// Full-intensity yellow, opaque.
    pub fn yellow() -> (c: Self)
        ensures
            c@ == 0xFFFF_00FFu32,
    {
        Self::from_u32(0xFFFF_00FF)
    }

    /// Full-intensity magenta, opaque.
    pub fn magenta() -> (c: Self)
        ensures
            c@ == 0xFF00_FFFFu32,
    {
        Self::from_u32(0xFF00_FFFF)
    }

    /// Full-intensity cyan, opaque.
    pub fn cyan() -> (c: Self)
        ensures
            c@ == 0x00FF_FFFFu32,
    {
        Self::from_u32(0x00FF_FFFF)
    }

    /// Full-intensity white, opaque.
    pub fn white() -> (c: Self)
        ensures
            c@ == 0xFFFF_FFFFu32,
    {
        Self::from_u32(0xFFFF_FFFF)
    }
}

/// A channel value constrained to five bits at the type level: a value of
/// this type always lies below 32, so packing it cannot corrupt adjacent bit
/// fields.
#[derive(Clone, Copy, PartialEq, Eq, Structural, Debug)]
pub struct U5 {
    v: u8,
}

impl View for U5 {
    type V = u8;

    closed spec fn view(&self) -> u8 {
        self.v
    }
}

impl U5 {
    #[verifier::type_invariant]
    spec fn inv(self) -> bool {
        self.v < 32
    }

    /// Validates the range once, at construction.
    pub fn new(v: u8) -> (r: Self)
        requires
            v < 32,
        ensures
            r@ == v,
    {
        U5 { v }
    }

    /// The contained value, always below 32.
    pub fn value(self) -> (r: u8)
        ensures
            r == self@,
            r < 32,
    {
        proof {
            use_type_invariant(self);
        }
        self.v
    }
}

/// An alpha value constrained to one bit at the type level: a value of this
/// type is always 0 or 1.
#[derive(Clone, Copy, PartialEq, Eq, Structural, Debug)]
pub struct U1 {
    v: u8,
}

impl View for U1 {
    type V = u8;

    closed spec fn view(&self) -> u8 {
        self.v
    }
}

impl U1 {
    #[verifier::type_invariant]
    spec fn inv(self) -> bool {
        self.v < 2
    }

    /// Validates the range once, at construction.
    pub fn new(v: u8) -> (r: Self)
        requires
            v < 2,
        ensures
            r@ == v,
    {
        U1 { v }
    }

    /// The contained value, always 0 or 1.
    pub fn value(self) -> (r: u8)
        ensures
            r == self@,
            r < 2,
    {
        proof {
            use_type_invariant(self);
        }
        self.v
    }
}

/// A color with three 5-bit color channels and a 1-bit alpha, stored only as
/// its packed 16-bit word.
#[derive(Clone, Copy, PartialEq, Eq, Structural, Debug)]
pub struct RGBA5551 {
    packed: u16,
}

impl View for RGBA5551 {
    type V = u16;

    closed spec fn view(&self) -> u16 {
        self.packed
    }
}

impl RGBA5551 {
    /// Reinterprets a 16-bit word as a packed color; every bit pattern is
    /// valid.
    pub fn from_u16(c: u16) -> (r: Self)
        ensures
            r@ == c,
    {
        Self { packed: c }
    }

    /// Packs three 5-bit channels and the alpha bit; the channel types keep
    /// out-of-range values away without any truncation.
    pub fn new(r: U5, g: U5, b: U5, a: U1) -> (c: Self)
        ensures
            c@ == pack_b(r@, g@, b@, a@),
    {
        let rv = r.value() as u16;
        let gv = g.value() as u16;
        let bv = b.value() as u16;
        let av = a.value() as u16;
        Self::from_u16((rv << 11) | (gv << 6) | (bv << 1) | av)
    }

    /// Reinterprets the color as its packed 16-bit word.
    pub fn into_u16(self) -> (r: u16)
        ensures
            r == self@,
    {
        self.packed
    }

    /// Packs three 5-bit channels and the alpha bit after remapping each
    /// color channel through the squaring gamma transform; alpha is
    /// untouched.
    pub fn linear(r: U5, g: U5, b: U5, a: U1) -> (c: Self)
        ensures
            c@ == pack_b(gamma_b(r@), gamma_b(g@), gamma_b(b@), a@),
    {
        let r32 = r.value() as u32;
        let g32 = g.value() as u32;
        let b32 = b.value() as u32;
        proof {
            assert(r32 < 32 && g32 < 32 && b32 < 32 ==> r32 * r32 < 1024 && ((((r32 * r32) as u32)
                >> 5) as u8) < 32 && g32 * g32 < 1024 && ((((g32 * g32) as u32) >> 5) as u8) < 32
                && b32 * b32 < 1024 && ((((b32 * b32) as u32) >> 5) as u8) < 32) by (bit_vector);
        }
        let rl = U5 { v: ((r32 * r32) >> 5) as u8 };
        let gl = U5 { v: ((g32 * g32) >> 5) as u8 };
        let bl = U5 { v: ((b32 * b32) >> 5) as u8 };
        Self::new(rl, gl, bl, a)
    }

    /// Narrows an 8-8-8-8 color: each color channel keeps its top five bits
    /// and alpha keeps only its top bit.
    pub fn from_rgba8888(c: RGBA8888) -> (v: Self)
        ensures
            v@ == narrow_a_to_b(c@),
    {
        Self::from_u16(
            (((c.r() as u16) >> 3) << 11) | (((c.g() as u16) >> 3) << 6) | (((c.b() as u16) >> 3)
                << 1) | ((c.a() as u16) >> 7),
        )
    }

    /// The red channel as a 5-bit value.
    pub fn r(self) -> (r: U5)
        ensures
            r@ == chan_b_r(self@),
    {
        let w = self.packed;
        proof {
            assert(((w >> 11) as u8) < 32) by (bit_vector);
        }
        U5 { v: (w >> 11) as u8 }
    }

    /// The green channel as a 5-bit value.
    pub fn g(self) -> (r: U5)
        ensures
            r@ == chan_b_g(self@),
    {
        let w = self.packed;
        proof {
            assert((((w >> 6) & 0x1F) as u8) < 32) by (bit_vector);
        }
        U5 { v: ((w >> 6) & 0x1F) as u8 }
    }

    /// The blue channel as a 5-bit value.
    pub fn b(self) -> (r: U5)
        ensures
            r@ == chan_b_b(self@),
    {
        let w = self.packed;
        proof {
            assert((((w >> 1) & 0x1F) as u8) < 32) by (bit_vector);
        }
        U5 { v: ((w >> 1) & 0x1F) as u8 }
    }

    /// The alpha bit.
    pub fn a(self) -> (r: U1)
        ensures
            r@ == chan_b_a(self@),
    {
        let w = self.packed;
        proof {
            assert(((w & 1) as u8) < 2) by (bit_vector);
        }
        U1 { v: (w & 1) as u8 }
    }

    /// Black, opaque.
    pub fn black() -> (c: Self)
        ensures
            c@ == 0x0001u16,
    {
        Self::from_u16(0x0001)
    }

    /// Full-intensity red, opaque.
    pub fn red() -> (c: Self)
        ensures
            c@ == 0xF801u16,
    {
        Self::from_u16(0xF801)
    }

    /// Full-intensity green, opaque.
    pub fn green() -> (c: Self)
        ensures
            c@ == 0x07C1u16,
    {
        Self::from_u16(0x07C1)
    }

    /// Full-intensity blue, opaque.
    pub fn blue() -> (c: Self)
        ensures
            c@ == 0x003Fu16,
    {
        Self::from_u16(0x003F)
    }

    /// Full-intensity yellow, opaque.
    pub fn yellow() -> (c: Self)
        ensures
            c@ == 0xFFC1u16,
    {
        Self::from_u16(0xFFC1)
    }

    /// Full-intensity magenta, opaque.
    pub fn magenta() -> (c: Self)
        ensures
            c@ == 0xF83Fu16,
    {
        Self::from_u16(0xF83F)
    }

    /// Full-intensity cyan, opaque.
    pub fn cyan() -> (c: Self)
        ensures
            c@ == 0x07FFu16,
    {
        Self::from_u16(0x07FF)
    }

    /// Full-intensity white, opaque.
    pub fn white() -> (c: Self)
        ensures
            c@ == 0xFFFFu16,
    {
        Self::from_u16(0xFFFF)
    }
}

/// The packed layout of the 5-5-5-1 format: `R<<11 | G<<6 | B<<1 | A`.
pub open spec fn pack_b(r: u8, g: u8, b: u8, a: u8) -> u16 {
    ((r as u16) << 11) | ((g as u16) << 6) | ((b as u16) << 1) | (a as u16)
}

/// The red channel of a packed 5-5-5-1 word.
pub open spec fn chan_b_r(w: u16) -> u8 {
    (w >> 11) as u8
}

/// The green channel of a packed 5-5-5-1 word.
pub open spec fn chan_b_g(w: u16) -> u8 {
    ((w >> 6) & 0x1F) as u8
}

/// The blue channel of a packed 5-5-5-1 word.
pub open spec fn chan_b_b(w: u16) -> u8 {
    ((w >> 1) & 0x1F) as u8
}

/// The alpha bit of a packed 5-5-5-1 word.
pub open spec fn chan_b_a(w: u16) -> u8 {
    (w & 1) as u8
}

/// The channel-truncating, alpha-quantizing conversion from the 8-8-8-8
/// format to the 5-5-5-1 format: each color channel keeps its top five bits,
/// and alpha keeps only its top bit.
pub open spec fn narrow_a_to_b(w: u32) -> u16 {
    (((chan_a_r(w) as u16) >> 3) << 11) | (((chan_a_g(w) as u16) >> 3) << 6) | (((chan_a_b(w)
        as u16) >> 3) << 1) | ((chan_a_a(w) as u16) >> 7)
}

/// Widens a five-bit channel to eight bits by replicating its top bits into
/// the low bits.
pub open spec fn expand5(c: u8) -> u8 {
    (c << 3) | (c >> 2)
}

/// The channel-expanding conversion from the 5-5-5-1 format to the 8-8-8-8
/// format: each color channel is widened by bit replication, and the alpha
/// bit becomes fully transparent or fully opaque.
pub open spec fn widen_b_to_a(w: u16) -> u32 {
    let r = ((w >> 11) & 0x1F) as u8;
    let g = ((w >> 6) & 0x1F) as u8;
    let b = ((w >> 1) & 0x1F) as u8;
    let a: u8 = if (w & 0x1) != 0 {
        0xFF
    } else {
        0
    };
    pack_a(expand5(r), expand5(g), expand5(b), a)
}

/// The non-linear-to-linear remap of an 8-bit channel: the channel is
/// squared and scaled back into range.
pub open spec fn gamma_a(c: u8) -> u8 {
    let c2 = ((c as u32) * (c as u32)) as u32;
    (c2 >> 8) as u8
}

/// The non-linear-to-linear remap of a 5-bit channel: the channel is squared
/// and scaled back into range.
pub open spec fn gamma_b(c: u8) -> u8 {
    let c2 = ((c as u32) * (c as u32)) as u32;
    (c2 >> 5) as u8
}

/// Extracting a channel is inverse to packing it: the four channels of
/// `pack_a(r, g, b, a)` are exactly `r`, `g`, `b` and `a`.
pub proof fn lemma_channels_inverse_a(r: u8, g: u8, b: u8, a: u8)
    ensures
        chan_a_r(pack_a(r, g, b, a)) == r,
        chan_a_g(pack_a(r, g, b, a)) == g,
        chan_a_b(pack_a(r, g, b, a)) == b,
        chan_a_a(pack_a(r, g, b, a)) == a,
{
    assert((((r as u32) << 24 | (g as u32) << 16 | (b as u32) << 8 | (a as u32)) >> 24) as u8 == r
        && (((r as u32) << 24 | (g as u32) << 16 | (b as u32) << 8 | (a as u32)) >> 16) as u8 == g
        && (((r as u32) << 24 | (g as u32) << 16 | (b as u32) << 8 | (a as u32)) >> 8) as u8 == b
        && ((r as u32) << 24 | (g as u32) << 16 | (b as u32) << 8 | (a as u32)) as u8 == a)
        by (bit_vector);
}

/// Packing the four channels of a word reproduces the word: the packed
/// representation is a lossless reinterpretation.
pub proof fn lemma_pack_unpack_a(w: u32)
    ensures
        pack_a(chan_a_r(w), chan_a_g(w), chan_a_b(w), chan_a_a(w)) == w,
{
    assert((((w >> 24) as u8) as u32) << 24 | (((w >> 16) as u8) as u32) << 16 | (((w >> 8) as u8)
        as u32) << 8 | ((w as u8) as u32) == w) by (bit_vector);
}

/// Extracting a channel is inverse to packing it: for in-range channels, the
/// four channels of `pack_b(r, g, b, a)` are exactly `r`, `g`, `b` and `a`.
pub proof fn lemma_channels_inverse_b(r: u8, g: u8, b: u8, a: u8)
    requires
        r < 32,
        g < 32,
        b < 32,
        a < 2,
    ensures
        chan_b_r(pack_b(r, g, b, a)) == r,
        chan_b_g(pack_b(r, g, b, a)) == g,
        chan_b_b(pack_b(r, g, b, a)) == b,
        chan_b_a(pack_b(r, g, b, a)) == a,
{
    assert(r < 32 && g < 32 && b < 32 && a < 2 ==> chan_b_r(pack_b(r, g, b, a)) == r && chan_b_g(
        pack_b(r, g, b, a)) == g && chan_b_b(pack_b(r, g, b, a)) == b && chan_b_a(
        pack_b(r, g, b, a)) == a) by (bit_vector);
}

/// Packing the four channels of a word reproduces the word: the packed
/// representation is a lossless reinterpretation.
pub proof fn lemma_pack_unpack_b(w: u16)
    ensures
        pack_b(chan_b_r(w), chan_b_g(w), chan_b_b(w), chan_b_a(w)) == w,
{
    assert(pack_b(chan_b_r(w), chan_b_g(w), chan_b_b(w), chan_b_a(w)) == w) by (bit_vector);
}

/// Round trip through the narrow format: narrowing an 8-8-8-8 color and
/// widening it back reproduces each color channel within the quantization
/// error of 5-bit truncation followed by bit replication, at most 7 per
/// channel, and maps alpha to its class: fully opaque when its top bit was
/// set, fully transparent otherwise.
pub proof fn lemma_narrow_widen_round_trip(r: u8, g: u8, b: u8, a: u8)
    ensures
        ({
            let w = widen_b_to_a(narrow_a_to_b(pack_a(r, g, b, a)));
            &&& chan_a_r(w) <= r + 7
            &&& r <= chan_a_r(w) + 7
            &&& chan_a_g(w) <= g + 7
            &&& g <= chan_a_g(w) + 7
            &&& chan_a_b(w) <= b + 7
            &&& b <= chan_a_b(w) + 7
            &&& chan_a_a(w) == if a >= 128 {
                0xFFu8
            } else {
                0u8
            }
        }),
{
    let w = widen_b_to_a(narrow_a_to_b(pack_a(r, g, b, a)));
    assert(w == widen_b_to_a(narrow_a_to_b(pack_a(r, g, b, a))) ==> chan_a_r(w) <= r + 7 && r
        <= chan_a_r(w) + 7 && chan_a_g(w) <= g + 7 && g <= chan_a_g(w) + 7 && chan_a_b(w) <= b + 7
        && b <= chan_a_b(w) + 7 && chan_a_a(w) == (if a >= 128 {
        0xFFu8
    } else {
        0u8
    })) by (bit_vector);
}

/// What a surface stores for one pixel: a fixed-size packed value with a
/// designated fill value for fresh buffers.
pub trait PixelFormat: Copy + Sized {
    /// The size of one packed pixel value, in bytes.
    spec fn size_spec() -> int;

    /// A pixel is at least one byte and at most eight bytes wide.
    proof fn size_properties()
        ensures
            1 <= Self::size_spec() <= 8,
    ;

    /// The size of one packed pixel value, in bytes.
    fn size_bytes() -> (r: u32)
        ensures
            r as int == Self::size_spec(),
    ;

    /// The value a fresh buffer is filled with; nothing is promised of it.
    fn filler() -> Self;
}

impl PixelFormat for RGBA8888 {
    open spec fn size_spec() -> int {
        4
    }

    proof fn size_properties() {
    }

    fn size_bytes() -> (r: u32) {
        4
    }

    fn filler() -> Self {
        Self { packed: 0 }
    }
}

impl PixelFormat for RGBA5551 {
    open spec fn size_spec() -> int {
        2
    }

    proof fn size_properties() {
    }

    fn size_bytes() -> (r: u32) {
        2
    }

    fn filler() -> Self {
        Self { packed: 0 }
    }
}

/// The effective alignment of a surface's block: the requested class, but
/// never below 16 bytes nor below the pixel size.
pub open spec fn eff_align_spec(align: int, pixel_size: int) -> int {
    let a = if align < 16 {
        16
    } else {
        align
    };
    if a < pixel_size {
        pixel_size
    } else {
        a
    }
}

/// The buffer that results from applying a sequence of positioned writes to
/// a row-major buffer of the given dimensions, in order.  A write lands at
/// linear offset `x + y*w` when `0 <= x < w` and `0 <= y < h`; anything else
/// is dropped silently.
pub open spec fn draw_spec<P>(buf: Seq<P>, w: int, h: int, pts: Seq<(i32, i32, P)>) -> Seq<P>
    decreases pts.len(),
{
    if pts.len() == 0 {
        buf
    } else {
        let prev = draw_spec(buf, w, h, pts.drop_last());
        let p = pts.last();
        if 0 <= p.0 < w && 0 <= p.1 < h {
            prev.update(p.0 + p.1 * w, p.2)
        } else {
            prev
        }
    }
}

/// An owned rectangular pixel buffer over arena memory: a contiguous
/// row-major array of `width * height` packed pixels, reached through the
/// uncached mapping of a block of the arena, with an alignment class fixed
/// at creation.
pub struct Surface<P> {
    buf: Vec<P>,
    width: u16,
    height: u16,
    addr: u32,
    align: u32,
}

impl<P: PixelFormat> Surface<P> {
    /// The pixel contents, row-major.
    pub closed spec fn pixels(self) -> Seq<P> {
        self.buf@
    }

    /// The width in pixels.
    pub closed spec fn width_spec(self) -> u16 {
        self.width
    }

    /// The height in pixels.
    pub closed spec fn height_spec(self) -> u16 {
        self.height
    }

    /// The uncached base address of the backing block.
    pub closed spec fn addr_spec(self) -> u32 {
        self.addr
    }

    /// The alignment class the surface was created with.
    pub closed spec fn align_class_spec(self) -> u32 {
        self.align
    }

    /// The size of the backing block in bytes.
    pub open spec fn size_bytes_spec(self) -> int {
        self.width_spec() * self.height_spec() * P::size_spec()
    }

    /// The cached address of the backing block, as the arena knows it.
    pub open spec fn cached_spec(self) -> int {
        self.addr_spec() - 0x2000_0000
    }

    /// The buffer holds exactly one pixel value per coordinate, the base
    /// address lies in the uncached window and is aligned to the alignment
    /// class, and the class is one of the two the platform uses.
    pub closed spec fn wf(self) -> bool {
        &&& self.buf@.len() == self.width * self.height
        &&& (self.align == 16 || self.align == 0x0010_0000)
        &&& 0xA000_0000 <= self.addr < 0xC000_0000
        &&& self.addr % self.align == 0
        &&& (self.addr - 0x2000_0000) % self.align as int == 0
    }

    /// Computes the block layout for a surface: the byte size of the pixel
    /// array, and the requested alignment raised to at least 16 bytes and at
    /// least the pixel size.
    fn layout(width: u16, height: u16, align: u32) -> (r: (u32, u32))
        requires
            width * height * P::size_spec() <= u32::MAX,
            align <= 0x0010_0000,
        ensures
            r.0 as int == width * height * P::size_spec(),
            r.1 as int == eff_align_spec(align as int, P::size_spec()),
            16 <= r.1 <= 0x0010_0000,
    {
        proof {
            P::size_properties();
            let w = width as int;
            let h = height as int;
            assert(w * h <= 0xFFFF * 0xFFFF) by (nonlinear_arith)
                requires
                    0 <= w <= 0xFFFF,
                    0 <= h <= 0xFFFF,
            ;
            assert(w * h <= w * h * P::size_spec()) by (nonlinear_arith)
                requires
                    0 <= w * h,
                    1 <= P::size_spec(),
            ;
        }
        let size64 = (width as u64) * (height as u64) * (P::size_bytes() as u64);
        let sb = P::size_bytes();
        let mut a = align;
        if a < 16 {
            a = 16;
        }
        if a < sb {
            a = sb;
        }
        (size64 as u32, a)
    }

    /// Creates a surface of the given dimensions over a fresh block of the
    /// arena, using the given alignment class, and remembers the uncached
    /// mapping of the block.
    fn create(arena: &mut SystemAlloc, width: u16, height: u16, align: u32) -> (s: Self)
        requires
            old(arena).wf(),
            align == 16 || align == 0x0010_0000,
            width * height * P::size_spec() <= u32::MAX,
            align_up_spec(old(arena).next_spec() as int, align as int) + width * height
                * P::size_spec() <= old(arena).base_spec() + old(arena).capacity_spec(),
        ensures
            s.wf(),
            s.width_spec() == width,
            s.height_spec() == height,
            s.pixels().len() == width * height,
            s.align_class_spec() == align,
            s.cached_spec() == align_up_spec(old(arena).next_spec() as int, align as int),
            final(arena).wf(),
            final(arena).base_spec() == old(arena).base_spec(),
            final(arena).capacity_spec() == old(arena).capacity_spec(),
            final(arena).free_spec() == old(arena).free_spec() - s.size_bytes_spec(),
            final(arena).next_spec() == s.cached_spec() + s.size_bytes_spec(),
            final(arena).blocks_spec().len() == old(arena).blocks_spec().len() + 1,
            final(arena).blocks_spec().drop_last() == old(arena).blocks_spec(),
            final(arena).blocks_spec().last().prev_next == old(arena).next_spec(),
            final(arena).blocks_spec().last().addr == s.cached_spec(),
            final(arena).blocks_spec().last().size == s.size_bytes_spec(),
            final(arena).blocks_spec().last().align == align,
    {
        proof {
            P::size_properties();
            assert((width as int) * (height as int) <= 0xFFFF * 0xFFFF) by (nonlinear_arith)
                requires
                    0 <= width <= 0xFFFF,
                    0 <= height <= 0xFFFF,
            ;
        }
        let (size, eff) = Self::layout(width, height, align);
        let a_opt = arena.allocate(size, eff);
        let a = a_opt.unwrap();
        let addr = system::uncached_addr(a);
        proof {
            system::lemma_uncached_is_offset(a);
            vstd::arithmetic::div_mod::lemma_add_mod_noop(a as int, 0x2000_0000, align as int);
            vstd::arithmetic::div_mod::lemma_mod_twice(a as int, align as int);
        }
        let count = (width as usize) * (height as usize);
        let mut buf: Vec<P> = Vec::new();
        let mut i: usize = 0;
        while i < count
            invariant
                buf@.len() == i,
                i <= count,
            decreases count - i,
        {
            buf.push(P::filler());
            i = i + 1;
        }
        Surface { buf, width, height, addr, align }
    }

    /// Creates a surface aligned for direct display-hardware access.
    pub fn framebuffer(arena: &mut SystemAlloc, width: u16, height: u16) -> (s: Self)
        requires
            old(arena).wf(),
            width * height * P::size_spec() <= u32::MAX,
            align_up_spec(old(arena).next_spec() as int, 0x0010_0000) + width * height
                * P::size_spec() <= old(arena).base_spec() + old(arena).capacity_spec(),
        ensures
            s.wf(),
            s.width_spec() == width,
            s.height_spec() == height,
            s.pixels().len() == width * height,
            s.align_class_spec() == 0x0010_0000,
            s.addr_spec() % 0x0010_0000 == 0,
            s.cached_spec() == align_up_spec(old(arena).next_spec() as int, 0x0010_0000),
            final(arena).wf(),
            final(arena).base_spec() == old(arena).base_spec(),
            final(arena).capacity_spec() == old(arena).capacity_spec(),
            final(arena).free_spec() == old(arena).free_spec() - s.size_bytes_spec(),
            final(arena).next_spec() == s.cached_spec() + s.size_bytes_spec(),
            final(arena).blocks_spec().len() == old(arena).blocks_spec().len() + 1,
            final(arena).blocks_spec().drop_last() == old(arena).blocks_spec(),
            final(arena).blocks_spec().last().prev_next == old(arena).next_spec(),
            final(arena).blocks_spec().last().addr == s.cached_spec(),
            final(arena).blocks_spec().last().size == s.size_bytes_spec(),
            final(arena).blocks_spec().last().align == 0x0010_0000,
    {
        Self::create(arena, width, height, 0x0010_0000)
    }

    /// Creates a surface with the small general-purpose alignment.
    pub fn new(arena: &mut SystemAlloc, width: u16, height: u16) -> (s: Self)
        requires
            old(arena).wf(),
            width * height * P::size_spec() <= u32::MAX,
            align_up_spec(old(arena).next_spec() as int, 16) + width * height * P::size_spec()
                <= old(arena).base_spec() + old(arena).capacity_spec(),
        ensures
            s.wf(),
            s.width_spec() == width,
            s.height_spec() == height,
            s.pixels().len() == width * height,
            s.align_class_spec() == 16,
            s.addr_spec() % 16 == 0,
            s.cached_spec() == align_up_spec(old(arena).next_spec() as int, 16),
            final(arena).wf(),
            final(arena).base_spec() == old(arena).base_spec(),
            final(arena).capacity_spec() == old(arena).capacity_spec(),
            final(arena).free_spec() == old(arena).free_spec() - s.size_bytes_spec(),
            final(arena).next_spec() == s.cached_spec() + s.size_bytes_spec(),
            final(arena).blocks_spec().len() == old(arena).blocks_spec().len() + 1,
            final(arena).blocks_spec().drop_last() == old(arena).blocks_spec(),
            final(arena).blocks_spec().last().prev_next == old(arena).next_spec(),
            final(arena).blocks_spec().last().addr == s.cached_spec(),
            final(arena).blocks_spec().last().size == s.size_bytes_spec(),
            final(arena).blocks_spec().last().align == 16,
    {
        Self::create(arena, width, height, 16)
    }

    /// The base address of the uncached mapping, for handing the buffer to
    /// hardware.
    pub fn as_ptr(&self) -> (r: u32)
        ensures
            r == self.addr_spec(),
    {
        self.addr
    }

    /// The base address of the uncached mapping, for handing the buffer to
    /// hardware that writes it.
    pub fn as_mut_ptr(&mut self) -> (r: u32)
        ensures
            r == old(self).addr_spec(),
            *final(self) == *old(self),
    {
        self.addr
    }

    /// The width in pixels.
    pub fn width(&self) -> (r: u16)
        ensures
            r == self.width_spec(),
    {
        self.width
    }

    /// The height in pixels.
    pub fn height(&self) -> (r: u16)
        ensures
            r == self.height_spec(),
    {
        self.height
    }

    /// Whether the surface holds no pixels at all.
    pub fn is_empty(&self) -> (r: bool)
        ensures
            r == (self.width_spec() == 0 || self.height_spec() == 0),
    {
        self.width == 0 || self.height == 0
    }

    /// The number of pixels: `width * height`.
    pub fn len(&self) -> (r: usize)
        requires
            self.wf(),
        ensures
            r as int == self.width_spec() * self.height_spec(),
    {
        self.buf.len()
    }

    /// The pixel buffer as a typed, bounds-known view.
    pub fn as_slice(&self) -> (r: &[P])
        ensures
            r@ == self.pixels(),
    {
        self.buf.as_slice()
    }

    /// The pixel buffer as a typed, bounds-known mutable view.
    pub fn as_mut_slice(&mut self) -> (r: &mut [P])
        ensures
            r@ == old(self).pixels(),
            final(self).pixels() == final(r)@,
            final(self).width_spec() == old(self).width_spec(),
            final(self).height_spec() == old(self).height_spec(),
            final(self).addr_spec() == old(self).addr_spec(),
            final(self).align_class_spec() == old(self).align_class_spec(),
    {
        self.buf.as_mut_slice()
    }

    /// Writes each in-bounds point's color at linear offset `x + y*width`,
    /// overwriting the previous value; out-of-bounds points are dropped
    /// silently, never reported.  A point is drawn only when `x < width` and
    /// `y < height`: the boundary is exclusive, so every write stays inside
    /// the allocated buffer.
    pub fn draw_points(&mut self, points: &Vec<(i32, i32, P)>)
        requires
            old(self).wf(),
        ensures
            final(self).wf(),
            final(self).pixels() == draw_spec(
                old(self).pixels(),
                old(self).width_spec() as int,
                old(self).height_spec() as int,
                points@,
            ),
            final(self).width_spec() == old(self).width_spec(),
            final(self).height_spec() == old(self).height_spec(),
            final(self).addr_spec() == old(self).addr_spec(),
            final(self).align_class_spec() == old(self).align_class_spec(),
    {
        let w = self.width;
        let h = self.height;
        let ghost w_int = w as int;
        let ghost h_int = h as int;
        let mut i: usize = 0;
        while i < points.len()
            invariant
                i <= points@.len(),
                self.wf(),
                self.width == old(self).width,
                self.height == old(self).height,
                self.addr == old(self).addr,
                self.align == old(self).align,
                w == self.width,
                h == self.height,
                w_int == w as int,
                h_int == h as int,
                self.pixels() == draw_spec(
                    old(self).pixels(),
                    w_int,
                    h_int,
                    points@.take(i as int),
                ),
            decreases points@.len() - i,
        {
            let (x, y, c) = points[i];
            if x >= 0 && y >= 0 && (x as u32) < (w as u32) && (y as u32) < (h as u32) {
                proof {
                    assert(x + y * w_int < w_int * h_int) by (nonlinear_arith)
                        requires
                            0 <= x < w_int,
                            0 <= y < h_int,
                    ;
                    assert(w_int * h_int <= 0xFFFF * 0xFFFF) by (nonlinear_arith)
                        requires
                            0 <= w_int <= 0xFFFF,
                            0 <= h_int <= 0xFFFF,
                    ;
                    assert(0 <= y * w_int) by (nonlinear_arith)
                        requires
                            0 <= y,
                            0 <= w_int,
                    ;
                }
                let idx = (x as usize) + (y as usize) * (w as usize);
                self.buf[idx] = c;
            }
            proof {
                assert(points@.take(i + 1).drop_last() =~= points@.take(i as int));
                assert(points@.take(i + 1).last() == points@[i as int]);
            }
            i = i + 1;
        }
        proof {
            assert(points@.take(points@.len() as int) =~= points@);
        }
    }

    /// Releases the backing block to the arena it was taken from, after
    /// translating the uncached base address back to the cached address the
    /// arena understands, with the same layout the block was created with.
    pub fn destroy(self, arena: &mut SystemAlloc)
        requires
            self.wf(),
            old(arena).wf(),
            old(arena).blocks_spec().len() > 0,
            old(arena).blocks_spec().last().addr == self.cached_spec(),
            old(arena).blocks_spec().last().size == self.size_bytes_spec(),
            old(arena).blocks_spec().last().align == eff_align_spec(
                self.align_class_spec() as int,
                P::size_spec(),
            ),
            self.size_bytes_spec() <= u32::MAX,
        ensures
            final(arena).wf(),
            final(arena).base_spec() == old(arena).base_spec(),
            final(arena).capacity_spec() == old(arena).capacity_spec(),
            final(arena).blocks_spec() == old(arena).blocks_spec().drop_last(),
            final(arena).next_spec() == old(arena).blocks_spec().last().prev_next,
            final(arena).in_use_spec() == old(arena).in_use_spec() - self.size_bytes_spec(),
            final(arena).free_spec() == old(arena).free_spec() + self.size_bytes_spec(),
    {
        let cached = system::cached_addr(self.as_ptr());
        proof {
            let a = self.addr;
            assert(0xA000_0000 <= a < 0xC000_0000 ==> (a & 0xDFFF_FFFF) == a - 0x2000_0000)
                by (bit_vector);
        }
        let (size, eff) = Self::layout(self.width, self.height, self.align);
        arena.deallocate(cached, size, eff);
    }
}

/// Creating a surface and then destroying it hands the arena back exactly as
/// it was: the same free count, the same bump position, and the same
/// outstanding blocks — repeated create/destroy cycles leak nothing.
pub fn create_destroy_restores_arena<P: PixelFormat>(
    arena: &mut SystemAlloc,
    width: u16,
    height: u16,
)
    requires
        old(arena).wf(),
        width * height * P::size_spec() <= u32::MAX,
        align_up_spec(old(arena).next_spec() as int, 0x0010_0000) + width * height * P::size_spec()
            <= old(arena).base_spec() + old(arena).capacity_spec(),
    ensures
        final(arena).wf(),
        final(arena).base_spec() == old(arena).base_spec(),
        final(arena).capacity_spec() == old(arena).capacity_spec(),
        final(arena).next_spec() == old(arena).next_spec(),
        final(arena).in_use_spec() == old(arena).in_use_spec(),
        final(arena).free_spec() == old(arena).free_spec(),
        final(arena).blocks_spec() == old(arena).blocks_spec(),
{
    proof {
        P::size_properties();
    }
    let s = Surface::<P>::framebuffer(arena, width, height);
    s.destroy(arena);
}

/// The eight named basic colors agree across the two formats: narrowing a
/// named 8-8-8-8 color yields the 5-5-5-1 color of the same name, and
/// widening a named 5-5-5-1 color yields the 8-8-8-8 color of the same name.
pub proof fn lemma_constants_agree()
    ensures
        narrow_a_to_b(0x0000_00FF) == 0x0001,
        narrow_a_to_b(0xFF00_00FF) == 0xF801,
        narrow_a_to_b(0x00FF_00FF) == 0x07C1,
        narrow_a_to_b(0x0000_FFFF) == 0x003F,
        narrow_a_to_b(0xFFFF_00FF) == 0xFFC1,
        narrow_a_to_b(0xFF00_FFFF) == 0xF83F,
        narrow_a_to_b(0x00FF_FFFF) == 0x07FF,
        narrow_a_to_b(0xFFFF_FFFF) == 0xFFFF,
        widen_b_to_a(0x0001) == 0x0000_00FF,
        widen_b_to_a(0xF801) == 0xFF00_00FF,
        widen_b_to_a(0x07C1) == 0x00FF_00FF,
        widen_b_to_a(0x003F) == 0x0000_FFFF,
        widen_b_to_a(0xFFC1) == 0xFFFF_00FF,
        widen_b_to_a(0xF83F) == 0xFF00_FFFF,
        widen_b_to_a(0x07FF) == 0x00FF_FFFF,
        widen_b_to_a(0xFFFF) == 0xFFFF_FFFF,
{
    assert(narrow_a_to_b(0x0000_00FF) == 0x0001 && narrow_a_to_b(0xFF00_00FF) == 0xF801
        && narrow_a_to_b(0x00FF_00FF) == 0x07C1 && narrow_a_to_b(0x0000_FFFF) == 0x003F
        && narrow_a_to_b(0xFFFF_00FF) == 0xFFC1 && narrow_a_to_b(0xFF00_FFFF) == 0xF83F
        && narrow_a_to_b(0x00FF_FFFF) == 0x07FF && narrow_a_to_b(0xFFFF_FFFF) == 0xFFFF)
        by (bit_vector);
    assert(widen_b_to_a(0x0001) == 0x0000_00FF && widen_b_to_a(0xF801) == 0xFF00_00FF
        && widen_b_to_a(0x07C1) == 0x00FF_00FF && widen_b_to_a(0x003F) == 0x0000_FFFF
        && widen_b_to_a(0xFFC1) == 0xFFFF_00FF && widen_b_to_a(0xF83F) == 0xFF00_FFFF
        && widen_b_to_a(0x07FF) == 0x00FF_FFFF && widen_b_to_a(0xFFFF) == 0xFFFF_FFFF)
        by (bit_vector);
}

} // verus!
