//! Painting a scene on a canvas and encoding the canvas.
use vstd::prelude::*;

use resvg::tiny_skia::{Pixmap, Transform};
use resvg::usvg::Tree;

use crate::canvas::{allocate_canvas, blank_pixels, canvas_fits, renderable, canvas_height, canvas_pixels, canvas_width};
use crate::error::ConversionError;
use crate::png::{png_encoding, png_header};

verus! {

/// The pixels of a `width` by `height` canvas that held `pixels` after `t` is
/// painted on it with the identity transform, in the scene's paint order.
pub uninterp spec fn painted(t: Tree, pixels: Seq<u8>, width: u32, height: u32) -> Seq<u8>;

/// Relies on resvg::render with the identity transform: paints `tree` in
/// place; a canvas keeps its size. The painter unwraps a working area of
/// five times each side, which must fit an `i32`.
#[verifier::external_body]
fn paint(tree: &Tree, canvas: &mut Pixmap)
    requires
        5 * (canvas_width(*old(canvas)) as int) <= i32::MAX,
        5 * (canvas_height(*old(canvas)) as int) <= i32::MAX,
    ensures
        canvas_width(*final(canvas)) == canvas_width(*old(canvas)),
        canvas_height(*final(canvas)) == canvas_height(*old(canvas)),
        canvas_pixels(*final(canvas)).len() == canvas_pixels(*old(canvas)).len(),
        canvas_pixels(*final(canvas)) == painted(*tree, canvas_pixels(*old(canvas)), canvas_width(*old(canvas)), canvas_height(*old(canvas))),
{
    resvg::render(tree, Transform::default(), &mut canvas.as_mut())
}

/// Relies on tiny_skia::Pixmap::encode_png: the PNG encoding of the canvas,
/// which opens with the signature and a header that declares the canvas size.
/// A canvas is never empty and is written as 8-bit RGBA into memory, where
/// the encoder has no failure.
#[verifier::external_body]
fn encode(canvas: &Pixmap) -> (r: Result<Vec<u8>, String>)
    ensures
        r is Ok,
        r matches Ok(b) ==> {
            &&& b@ == png_encoding(canvas_pixels(*canvas), canvas_width(*canvas), canvas_height(*canvas))
            &&& png_header(b@, canvas_width(*canvas), canvas_height(*canvas))
        },
{
    match canvas.encode_png() {
        Ok(b) => Ok(b),
        Err(e) => Err(e.to_string()),
    }
}

/// The text of the error for a canvas that cannot be made.
pub open spec fn canvas_failure_text() -> Seq<char> {
    "Error creating Pixmap"@
}

/// The PNG file of a blank `width` by `height` canvas with `t` painted on it.
pub open spec fn rendering(t: Tree, width: u32, height: u32) -> Seq<u8> {
    png_encoding(painted(t, blank_pixels(4 * (width as int) * (height as int)), width, height), width, height)
}

/// `bytes` is the PNG encoding of some `width` by `height` canvas.
pub open spec fn is_png_of_size(bytes: Seq<u8>, width: u32, height: u32) -> bool {
    &&& canvas_fits(width, height)
    &&& png_header(bytes, width, height)
    &&& exists|px: Seq<u8>|
        px.len() == 4 * (width as int) * (height as int) && bytes == #[trigger] png_encoding(px, width, height)
}

/// `bytes` is the PNG encoding of a canvas of some size.
pub open spec fn is_png(bytes: Seq<u8>) -> bool {
    exists|width: u32, height: u32| #[trigger] is_png_of_size(bytes, width, height)
}

/// The largest side that the painter's working area admits.
const MAX_PAINT_SIDE: u32 = 429_496_729;

/// Paints `tree` on `canvas` and encodes the result: a canvas that the painter
/// can work on always gives a PNG of its own size.
pub fn render_on_canvas(tree: &Tree, canvas: Pixmap) -> (r: Result<Vec<u8>, ConversionError>)
    requires
        renderable(canvas_width(canvas), canvas_height(canvas)),
        canvas_pixels(canvas).len() == 4 * (canvas_width(canvas) as int) * (canvas_height(
            canvas,
        ) as int),
    ensures
        r matches Ok(b) && is_png_of_size(b@, canvas_width(canvas), canvas_height(canvas)),
        r matches Ok(b) && b@ == png_encoding(painted(*tree, canvas_pixels(canvas), canvas_width(canvas), canvas_height(canvas)), canvas_width(canvas), canvas_height(canvas)),
{
    let mut canvas = canvas;
    paint(tree, &mut canvas);
    match encode(&canvas) {
        Ok(b) => {
            assert(png_encoding(canvas_pixels(canvas), canvas_width(canvas), canvas_height(canvas))
                == b@);
            Ok(b)
        },
        Err(m) => Err(ConversionError::Encode(m)),
    }
}

/// Renders `tree` on a blank canvas of exactly `width` by `height` pixels and
/// encodes it. A size that cannot be painted, or whose canvas cannot be
/// allocated, is an allocation failure.
pub fn render_at_size(tree: &Tree, width: u32, height: u32) -> (r: Result<Vec<u8>, ConversionError>)
    ensures
        r matches Ok(b) ==> is_png_of_size(b@, width, height),
        r matches Ok(b) ==> b@ == rendering(*tree, width, height),
        renderable(width, height) ==> (r is Ok || (r matches Err(ConversionError::Allocation(m))
            && m@ == canvas_failure_text())),
        !renderable(width, height) ==> (r matches Err(ConversionError::Allocation(m)) && m@
            == canvas_failure_text()),
        width == 0 || height == 0 ==> r matches Err(ConversionError::Allocation(_)),
{
    if width > MAX_PAINT_SIDE || height > MAX_PAINT_SIDE {
        return Err(ConversionError::Allocation("Error creating Pixmap".to_owned()));
    }
    match allocate_canvas(width, height) {
        Some(canvas) => render_on_canvas(tree, canvas),
        None => Err(ConversionError::Allocation("Error creating Pixmap".to_owned())),
    }
}

} // verus!
