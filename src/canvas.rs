//! The pixel canvas that a scene is painted on.
use vstd::prelude::*;

use resvg::tiny_skia::{IntSize, Pixmap};

verus! {

#[verifier::external_type_specification]
#[verifier::external_body]
pub struct ExPixmap(Pixmap);

/// The premultiplied RGBA bytes that a canvas holds, row after row.
pub uninterp spec fn canvas_pixels(p: Pixmap) -> Seq<u8>;

/// The width in pixels that a canvas was made with.
pub uninterp spec fn canvas_width(p: Pixmap) -> u32;

/// The height in pixels that a canvas was made with.
pub uninterp spec fn canvas_height(p: Pixmap) -> u32;

/// Whether a canvas of `width` by `height` pixels can be made: both sides are
/// positive, a row of four bytes per pixel fits an `i32`, and the whole buffer
/// fits a `usize`.
pub open spec fn canvas_fits(width: u32, height: u32) -> bool {
    &&& width > 0
    &&& height > 0
    &&& 4 * (width as int) <= i32::MAX
    &&& 4 * (width as int) * (height as int) <= usize::MAX
}

/// Whether a scene can be painted on a canvas of `width` by `height` pixels:
/// the canvas can be made, and the painter's working area of five times each
/// side still fits an `i32`.
pub open spec fn renderable(width: u32, height: u32) -> bool {
    &&& canvas_fits(width, height)
    &&& 5 * (width as int) <= i32::MAX
    &&& 5 * (height as int) <= i32::MAX
}

/// A buffer of `len` zero bytes: every pixel fully transparent.
pub open spec fn blank_pixels(len: int) -> Seq<u8> {
    Seq::new(len as nat, |i: int| 0u8)
}

/// The widest canvas whose rows of four bytes per pixel fit an `i32`.
const MAX_CANVAS_WIDTH: u32 = 536_870_911;

/// Relies on tiny_skia::IntSize::from_wh and tiny_skia::Pixmap::from_vec: a
/// canvas over `data` when the size can be made and `data` holds exactly
/// four bytes for each of its pixels.
#[verifier::external_body]
fn canvas_from_buffer(data: Vec<u8>, width: u32, height: u32) -> (r: Option<Pixmap>)
    ensures
        r.is_some() <==> (canvas_fits(width, height) && data@.len() == 4 * (width as int) * (
        height as int)),
        r matches Some(p) ==> {
            &&& canvas_width(p) == width
            &&& canvas_height(p) == height
            &&& canvas_pixels(p) == data@
        },
{
    Pixmap::from_vec(data, IntSize::from_wh(width, height)?)
}

/// Allocates the blank canvas of `width` by `height` pixels. `None` when no
/// canvas of that size can be made, or when the memory for it cannot be had.
pub fn allocate_canvas(width: u32, height: u32) -> (r: Option<Pixmap>)
    ensures
        !canvas_fits(width, height) ==> r.is_none(),
        width == 0 || height == 0 ==> r.is_none(),
        r matches Some(p) ==> {
            &&& canvas_fits(width, height)
            &&& canvas_width(p) == width
            &&& canvas_height(p) == height
            &&& canvas_pixels(p) == blank_pixels(4 * (width as int) * (height as int))
        },
{
    if width == 0 || height == 0 || width > MAX_CANVAS_WIDTH {
        return None;
    }
    let row = (width as usize).checked_mul(4)?;
    let len = row.checked_mul(height as usize)?;
    let mut data: Vec<u8> = Vec::new();
    if data.try_reserve(len).is_err() {
        return None;
    }
    data.resize(len, 0u8);
    assert(data@ =~= blank_pixels(len as int));
    canvas_from_buffer(data, width, height)
}

} // verus!
