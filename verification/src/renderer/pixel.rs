//! Packed 32-bit colors, `0xAARRGGBB`, and the byte layouts derived from them.

use vstd::prelude::*;

verus! {

/// Alpha value of a fully opaque pixel.
pub const OPAQUE_ALPHA: u8 = 0xFF;

/// Opaque black, the initial content of an opaque window.
pub const OPAQUE_BLACK: u32 = 0xFF000000;

/// Fully transparent black, the initial content of a transparent window.
pub const TRANSPARENT_BLACK: u32 = 0x00000000;

/// The packed color with alpha in the high byte, then red, green and blue.
pub open spec fn packed_argb(a: u8, r: u8, g: u8, b: u8) -> u32 {
    (a as int * 0x100_0000 + r as int * 0x1_0000 + g as int * 0x100 + b as int) as u32
}

/// The packed color of an opaque pixel.
pub open spec fn packed_rgb(r: u8, g: u8, b: u8) -> u32 {
    packed_argb(OPAQUE_ALPHA, r, g, b)
}

/// Alpha channel of a packed color.
pub open spec fn alpha_of(color: u32) -> u8 {
    (color as int / 0x100_0000) as u8
}

/// Red channel of a packed color.
pub open spec fn red_of(color: u32) -> u8 {
    ((color as int / 0x1_0000) % 0x100) as u8
}

/// Green channel of a packed color.
pub open spec fn green_of(color: u32) -> u8 {
    ((color as int / 0x100) % 0x100) as u8
}

/// Blue channel of a packed color.
pub open spec fn blue_of(color: u32) -> u8 {
    (color as int % 0x100) as u8
}

/// Packs four channels into one `0xAARRGGBB` value.
pub fn pack_argb(a: u8, r: u8, g: u8, b: u8) -> (color: u32)
    ensures
        color == packed_argb(a, r, g, b),
{
    let color: u32 = ((a as u32) << 24) | ((r as u32) << 16) | ((g as u32) << 8) | (b as u32);
    assert(color == (a as int * 0x100_0000 + r as int * 0x1_0000 + g as int * 0x100 + b as int)
        as u32) by (bit_vector)
        requires
            color == ((a as u32) << 24) | ((r as u32) << 16) | ((g as u32) << 8) | (b as u32),
    ;
    color
}

/// Packs three channels into an opaque `0xFFRRGGBB` value.
pub fn pack_rgb(r: u8, g: u8, b: u8) -> (color: u32)
    ensures
        color == packed_rgb(r, g, b),
{
    pack_argb(OPAQUE_ALPHA, r, g, b)
}

/// Splits a packed color into `(alpha, red, green, blue)`.
pub fn unpack_argb(color: u32) -> (channels: (u8, u8, u8, u8))
    ensures
        channels == (alpha_of(color), red_of(color), green_of(color), blue_of(color)),
{
    let a: u8 = ((color >> 24) & 0xFF) as u8;
    let r: u8 = ((color >> 16) & 0xFF) as u8;
    let g: u8 = ((color >> 8) & 0xFF) as u8;
    let b: u8 = (color & 0xFF) as u8;
    assert(((color >> 24) & 0xFF) as u8 == (color as int / 0x100_0000) as u8) by (bit_vector);
    assert(((color >> 16) & 0xFF) as u8 == ((color as int / 0x1_0000) % 0x100) as u8)
        by (bit_vector);
    assert(((color >> 8) & 0xFF) as u8 == ((color as int / 0x100) % 0x100) as u8) by (bit_vector);
    assert((color & 0xFF) as u8 == (color as int % 0x100) as u8) by (bit_vector);
    (a, r, g, b)
}

/// Packing then unpacking gives the four channels back.
pub proof fn lemma_unpack_of_pack(a: u8, r: u8, g: u8, b: u8)
    ensures
        alpha_of(packed_argb(a, r, g, b)) == a,
        red_of(packed_argb(a, r, g, b)) == r,
        green_of(packed_argb(a, r, g, b)) == g,
        blue_of(packed_argb(a, r, g, b)) == b,
{
    let v: int = a as int * 0x100_0000 + r as int * 0x1_0000 + g as int * 0x100 + b as int;
    assert(0 <= v <= 0xFFFF_FFFF);
    assert(v / 0x100_0000 == a as int);
    assert(v / 0x1_0000 == a as int * 0x100 + r as int);
    assert(v / 0x100 == a as int * 0x1_0000 + r as int * 0x100 + g as int);
}

/// Unpacking then packing gives the color back.
pub proof fn lemma_pack_of_unpack(color: u32)
    ensures
        packed_argb(alpha_of(color), red_of(color), green_of(color), blue_of(color)) == color,
{
    let c: int = color as int;
    assert(c == (c / 0x100) * 0x100 + c % 0x100);
    assert(c / 0x100 == (c / 0x1_0000) * 0x100 + (c / 0x100) % 0x100);
    assert(c / 0x1_0000 == (c / 0x100_0000) * 0x100 + (c / 0x1_0000) % 0x100);
    assert(0 <= c / 0x100_0000 < 0x100);
}

/// An opaque color has alpha 255 whatever its other channels are.
pub proof fn lemma_rgb_is_opaque(r: u8, g: u8, b: u8)
    ensures
        alpha_of(packed_rgb(r, g, b)) == OPAQUE_ALPHA,
        packed_rgb(0, 0, 0) == OPAQUE_BLACK,
        packed_argb(0, 0, 0, 0) == TRANSPARENT_BLACK,
{
    lemma_unpack_of_pack(OPAQUE_ALPHA, r, g, b);
}

/// The byte at position `k` of the four that present one pixel as red, green, blue, alpha.
pub open spec fn rgba_channel(color: u32, k: int) -> u8 {
    if k == 0 {
        red_of(color)
    } else if k == 1 {
        green_of(color)
    } else if k == 2 {
        blue_of(color)
    } else {
        alpha_of(color)
    }
}

/// The pixels laid out as bytes, four per pixel, in the order red, green, blue, alpha.
pub open spec fn rgba_bytes(pixels: Seq<u32>) -> Seq<u8> {
    Seq::new(pixels.len() * 4, |i: int| rgba_channel(pixels[i / 4], i % 4))
}

/// RGBA bytes reordered to blue, green, red, alpha; bytes after the last whole pixel are dropped.
pub open spec fn bgra_bytes(rgba: Seq<u8>) -> Seq<u8> {
    Seq::new(
        (rgba.len() / 4 * 4) as nat,
        |i: int| if i % 4 == 3 { rgba[i] } else { rgba[i / 4 * 4 + 2 - i % 4] },
    )
}

/// RGBA bytes reduced to blue, green, red, three per pixel; bytes after the last whole pixel
/// are dropped.
pub open spec fn bgr_bytes(rgba: Seq<u8>) -> Seq<u8> {
    Seq::new((rgba.len() / 4 * 3) as nat, |i: int| rgba[i / 3 * 4 + 2 - i % 3])
}

/// Lays a pixel buffer out as RGBA bytes.
pub fn argb_to_rgba(pixels: &[u32]) -> (bytes: Vec<u8>)
    requires
        pixels@.len() * 4 <= usize::MAX,
    ensures
        bytes@ == rgba_bytes(pixels@),
{
    let n: usize = pixels.len();
    let mut bytes: Vec<u8> = Vec::with_capacity(n * 4);
    let mut i: usize = 0;
    while i < n
        invariant
            n == pixels@.len(),
            i <= n,
            bytes@.len() == i * 4,
            forall|j: int| 0 <= j < i * 4 ==> bytes@[j] == rgba_channel(pixels@[j / 4], j % 4),
        decreases n - i,
    {
        let (a, r, g, b) = unpack_argb(pixels[i]);
        bytes.push(r);
        bytes.push(g);
        bytes.push(b);
        bytes.push(a);
        i += 1;
    }
    assert(bytes@ =~= rgba_bytes(pixels@));
    bytes
}

/// Reorders RGBA bytes to BGRA, the layout of a 32-bit deep surface.
pub fn rgba_to_bgra(rgba: &[u8]) -> (bytes: Vec<u8>)
    ensures
        bytes@ == bgra_bytes(rgba@),
{
    let n: usize = rgba.len() / 4;
    let mut bytes: Vec<u8> = Vec::with_capacity(n * 4);
    let mut i: usize = 0;
    while i < n
        invariant
            n == rgba@.len() / 4,
            rgba@.len() <= usize::MAX,
            i <= n,
            bytes@.len() == i * 4,
            forall|j: int|
                0 <= j < i * 4 ==> bytes@[j] == (if j % 4 == 3 {
                    rgba@[j]
                } else {
                    rgba@[j / 4 * 4 + 2 - j % 4]
                }),
        decreases n - i,
    {
        assert(i * 4 + 4 <= rgba@.len());
        let base: usize = i * 4;
        bytes.push(rgba[base + 2]);
        bytes.push(rgba[base + 1]);
        bytes.push(rgba[base]);
        bytes.push(rgba[base + 3]);
        i += 1;
    }
    assert(bytes@ =~= bgra_bytes(rgba@));
    bytes
}

/// Reduces RGBA bytes to BGR, the layout of a 24-bit deep surface.
pub fn rgba_to_bgr(rgba: &[u8]) -> (bytes: Vec<u8>)
    ensures
        bytes@ == bgr_bytes(rgba@),
{
    let n: usize = rgba.len() / 4;
    let mut bytes: Vec<u8> = Vec::with_capacity(n * 3);
    let mut i: usize = 0;
    while i < n
        invariant
            n == rgba@.len() / 4,
            rgba@.len() <= usize::MAX,
            i <= n,
            bytes@.len() == i * 3,
            forall|j: int| 0 <= j < i * 3 ==> bytes@[j] == rgba@[j / 3 * 4 + 2 - j % 3],
        decreases n - i,
    {
        assert(i * 4 + 4 <= rgba@.len());
        let base: usize = i * 4;
        bytes.push(rgba[base + 2]);
        bytes.push(rgba[base + 1]);
        bytes.push(rgba[base]);
        i += 1;
    }
    assert(bytes@ =~= bgr_bytes(rgba@));
    bytes
}

/// Every pixel survives the trip through RGBA bytes into BGRA bytes with its four channels
/// intact: blue first, alpha last.
pub proof fn lemma_bgra_of_pixels(pixels: Seq<u32>, i: int)
    requires
        0 <= i < pixels.len(),
    ensures
        bgra_bytes(rgba_bytes(pixels)).len() == pixels.len() * 4,
        bgra_bytes(rgba_bytes(pixels))[4 * i] == blue_of(pixels[i]),
        bgra_bytes(rgba_bytes(pixels))[4 * i + 1] == green_of(pixels[i]),
        bgra_bytes(rgba_bytes(pixels))[4 * i + 2] == red_of(pixels[i]),
        bgra_bytes(rgba_bytes(pixels))[4 * i + 3] == alpha_of(pixels[i]),
{
}

/// What a surface holds after `pixels` were copied onto it: as many pixels as both have, from
/// the start; the rest of the surface stays.
pub open spec fn blitted(pixels: Seq<u32>, surface: Seq<u32>) -> Seq<u32> {
    Seq::new(
        surface.len(),
        |i: int| if i < pixels.len() {
            pixels[i]
        } else {
            surface[i]
        },
    )
}

/// Copies a pixel buffer onto a surface of packed pixels, as far as both reach.
pub fn blit(pixels: &[u32], surface: &mut [u32])
    ensures
        final(surface)@ == blitted(pixels@, old(surface)@),
{
    let n: usize = if pixels.len() < surface.len() {
        pixels.len()
    } else {
        surface.len()
    };
    let mut i: usize = 0;
    while i < n
        invariant
            i <= n,
            n <= pixels@.len(),
            n <= surface@.len(),
            surface@.len() == old(surface)@.len(),
            forall|j: int| 0 <= j < i ==> surface@[j] == pixels@[j],
            forall|j: int| i <= j < surface@.len() ==> surface@[j] == old(surface)@[j],
        decreases n - i,
    {
        surface[i] = pixels[i];
        i += 1;
    }
    assert(surface@ =~= blitted(pixels@, old(surface)@));
}

/// Sets every pixel of a surface to `color`.
pub fn fill_surface(surface: &mut [u32], color: u32)
    ensures
        final(surface)@ == Seq::new(old(surface)@.len(), |i: int| color),
{
    let n: usize = surface.len();
    let mut i: usize = 0;
    while i < n
        invariant
            i <= n,
            n == surface@.len(),
            surface@.len() == old(surface)@.len(),
            forall|j: int| 0 <= j < i ==> surface@[j] == color,
        decreases n - i,
    {
        surface[i] = color;
        i += 1;
    }
    assert(surface@ =~= Seq::new(old(surface)@.len(), |i: int| color));
}

/// The side of a surface for a window side of `length` pixels: never zero.
pub fn surface_side(length: u32) -> (side: u32)
    ensures
        side == (if length == 0 {
            1u32
        } else {
            length
        }),
{
    if length == 0 {
        1
    } else {
        length
    }
}

/// Pixels laid out for an X11 image of a given depth.
pub struct X11Image {
    /// The bytes of the image, row by row.
    pub data: Vec<u8>,
    /// Bytes per row, or 0 where the server is to work it out.
    pub bytes_per_line: i32,
    /// Bits to which each row is padded.
    pub bitmap_pad: i32,
}

/// Lays RGBA bytes out for a window `width` pixels wide on a visual of `depth` bits: BGRA for
/// 32 bits, else BGR in rows of `3 * width` bytes. `None` when such a row is longer than an
/// `i32` can say.
pub fn x11_image(rgba: &[u8], width: u32, depth: u32) -> (image: Option<X11Image>)
    ensures
        image is Some <==> depth == 32 || width * 3 <= i32::MAX,
        image matches Some(img) ==> {
            &&& depth == 32 ==> img.data@ == bgra_bytes(rgba@) && img.bytes_per_line == 0
                && img.bitmap_pad == 32
            &&& depth != 32 ==> img.data@ == bgr_bytes(rgba@) && img.bytes_per_line == width * 3
                && img.bitmap_pad == 24
        },
{
    if depth == 32 {
        Some(X11Image { data: rgba_to_bgra(rgba), bytes_per_line: 0, bitmap_pad: 32 })
    } else if width <= 715827882 {
        Some(
            X11Image { data: rgba_to_bgr(rgba), bytes_per_line: (width * 3) as i32, bitmap_pad: 24 },
        )
    } else {
        None
    }
}

} // verus!
