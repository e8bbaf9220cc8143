//! The presentation surface of a window: a `tiny_skia::Pixmap`, known here by what it holds.
//!
//! Nothing in this file is proved. Each contract restates what the pixmap's own code does.

use vstd::prelude::*;
use tiny_skia::Pixmap;

verus! {

/// `tiny_skia::Pixmap`, a buffer of RGBA bytes with a width and a height.
#[verifier::external_type_specification]
#[verifier::external_body]
pub struct ExPixmap(tiny_skia::Pixmap);

/// The bytes of the pixmap, as `Pixmap::data` hands them out: four per pixel, row by row.
pub uninterp spec fn pixmap_data(pixmap: Pixmap) -> Seq<u8>;

/// The width of the pixmap in pixels, as `Pixmap::width` returns it.
pub uninterp spec fn pixmap_width(pixmap: Pixmap) -> u32;

/// The height of the pixmap in pixels, as `Pixmap::height` returns it.
pub uninterp spec fn pixmap_height(pixmap: Pixmap) -> u32;

/// The sizes for which a pixmap can be allocated: neither side is zero, a row of four-byte
/// pixels fits in an `i32`, and the whole buffer fits in a `usize`.
pub open spec fn pixmap_size_fits(width: u32, height: u32) -> bool {
    &&& 1 <= width
    &&& 1 <= height
    &&& width * 4 <= i32::MAX
    &&& width * height * 4 <= usize::MAX
}

/// `Pixmap::new` allocates a pixmap exactly for the sizes of `pixmap_size_fits`, and the new
/// pixmap has the size asked for and holds zero bytes only.
pub assume_specification[ Pixmap::new ](width: u32, height: u32) -> (pixmap: Option<Pixmap>)
    ensures
        pixmap is Some <==> pixmap_size_fits(width, height),
        pixmap matches Some(p) ==> {
            &&& pixmap_width(p) == width
            &&& pixmap_height(p) == height
            &&& pixmap_data(p) == Seq::new((width * height * 4) as nat, |i: int| 0u8)
        },
;

/// `Pixmap::width` returns the width the pixmap was made with.
pub assume_specification[ Pixmap::width ](pixmap: &Pixmap) -> (width: u32)
    ensures
        width == pixmap_width(*pixmap),
;

/// `Pixmap::height` returns the height the pixmap was made with.
pub assume_specification[ Pixmap::height ](pixmap: &Pixmap) -> (height: u32)
    ensures
        height == pixmap_height(*pixmap),
;

/// `Pixmap::data` lends the bytes of the pixmap.
pub assume_specification<'a>[ Pixmap::data ](pixmap: &'a Pixmap) -> (data: &'a [u8])
    ensures
        data@ == pixmap_data(*pixmap),
;

/// Overwrites the bytes of the pixmap with `bytes`, through `Pixmap::data_mut` and the
/// slice's `copy_from_slice`, which needs both to be of one length. The size of the pixmap
/// stays as it was.
#[verifier::external_body]
pub(crate) fn pixmap_write(pixmap: &mut Pixmap, bytes: &[u8])
    requires
        bytes@.len() == pixmap_data(*old(pixmap)).len(),
    ensures
        pixmap_data(*final(pixmap)) == bytes@,
        pixmap_width(*final(pixmap)) == pixmap_width(*old(pixmap)),
        pixmap_height(*final(pixmap)) == pixmap_height(*old(pixmap)),
{
    pixmap.data_mut().copy_from_slice(bytes);
}

} // verus!
