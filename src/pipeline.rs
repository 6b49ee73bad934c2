//! The conversion pipeline: fonts, parse, size, canvas, paint, encode.
use vstd::prelude::*;

use resvg::usvg::{Error, Tree};

use crate::canvas::renderable;
use crate::error::{error_text, ConversionError};
use crate::render::{rendering, canvas_failure_text, is_png, is_png_of_size, render_at_size};
use crate::scene::{describes_svg_error, fallback_scene, tree_pixel_size, fallback_fonts, svg_accepted, parse_error_text, parse_scene, scene_pixel_size};

verus! {

/// Classifies a parser failure: a document whose size is zero, negative or
/// missing is degenerate for allocation; anything else is a parse error.
pub fn parse_failure(e: &Error) -> (r: ConversionError)
    ensures
        r is Allocation <==> *e is InvalidSize,
        r is Parse <==> !(*e is InvalidSize),
        describes_svg_error(*e, error_text(r)),
{
    let text = parse_error_text(e);
    match e {
        Error::InvalidSize => ConversionError::Allocation(text),
        _ => ConversionError::Parse(text),
    }
}

/// Finishes a conversion from what the parser returned: a parser failure is
/// classified, a scene is rendered at its own size rounded to whole pixels.
pub fn convert_parsed(parsed: Result<Tree, Error>) -> (r: Result<Vec<u8>, ConversionError>)
    ensures
        parsed is Err ==> r is Err,
        parsed matches Err(e) ==> (r matches Err(ConversionError::Allocation(_)) <==> e is InvalidSize),
        parsed matches Err(e) ==> (r matches Err(ConversionError::Parse(_)) <==> !(e is InvalidSize)),
        parsed matches Err(e) ==> (r matches Err(f) && describes_svg_error(e, error_text(f))),
        parsed is Ok ==> !(r matches Err(ConversionError::Parse(_))),
        parsed is Ok ==> (r is Ok || (r matches Err(ConversionError::Allocation(m)) && m@
            == canvas_failure_text())),
        parsed matches Ok(t) ==> (r matches Ok(b) ==> b@ == rendering(t, tree_pixel_size(t).0, tree_pixel_size(t).1)),
        parsed matches Ok(t) ==> (r matches Ok(b) ==> is_png_of_size(b@, tree_pixel_size(t).0, tree_pixel_size(t).1)),
        parsed matches Ok(t) ==> (!renderable(tree_pixel_size(t).0, tree_pixel_size(t).1) ==> r matches Err(ConversionError::Allocation(_))),
        r matches Ok(b) ==> exists|w: u32, h: u32|
            w >= 1 && h >= 1 && renderable(w, h) && #[trigger] is_png_of_size(b@, w, h),
{
    match parsed {
        Err(e) => Err(parse_failure(&e)),
        Ok(tree) => {
            let (width, height) = scene_pixel_size(&tree);
            let r = render_at_size(&tree, width, height);
            if let Ok(b) = &r {
                assert(is_png_of_size(b@, width, height));
            }
            r
        },
    }
}

/// The size, in whole pixels, of the PNG that `svg` converts to with the
/// fallback font `font`.
pub open spec fn conversion_size(svg: Seq<char>, font: Seq<u8>) -> (u32, u32) {
    tree_pixel_size(fallback_scene(svg, font))
}

/// The PNG bytes that `svg` converts to with the fallback font `font`: the
/// scene painted on a blank canvas of its own rounded size, and encoded.
pub open spec fn conversion_bytes(svg: Seq<char>, font: Seq<u8>) -> Seq<u8> {
    rendering(fallback_scene(svg, font), conversion_size(svg, font).0, conversion_size(svg, font).1)
}

/// Converts SVG text into PNG bytes, resolving text with the faces of
/// `fallback_font`. Every failure comes back as one `ConversionError`; a
/// success is always a complete PNG file.
pub fn svg_to_png_internal(svg: &str, fallback_font: &[u8]) -> (r: Result<Vec<u8>, ConversionError>)
    ensures
        !svg_accepted(svg@) ==> r is Err,
        svg_accepted(svg@) ==> (r is Ok || (r matches Err(ConversionError::Allocation(m)) && m@
            == canvas_failure_text())),
        !(r matches Err(ConversionError::Encode(_))),
        r matches Ok(b) ==> is_png(b@),
        r matches Ok(b) ==> b@ == conversion_bytes(svg@, fallback_font@),
        r matches Ok(b) ==> is_png_of_size(b@, conversion_size(svg@, fallback_font@).0, conversion_size(svg@, fallback_font@).1),
        svg_accepted(svg@) && !renderable(conversion_size(svg@, fallback_font@).0, conversion_size(svg@, fallback_font@).1) ==> r matches Err(ConversionError::Allocation(_)),
        r matches Err(ConversionError::Allocation(m)) ==> (m@ == canvas_failure_text() || m@
            == "SVG has an invalid size"@),
        r matches Err(ConversionError::Parse(m)) ==> exists|e: Error|
            !(e is InvalidSize) && #[trigger] describes_svg_error(e, m@),
{
    let fonts = fallback_fonts(fallback_font);
    let parsed = parse_scene(svg, fonts);
    let ghost failure = parsed;
    let r = convert_parsed(parsed);
    if let Err(ConversionError::Parse(m)) = &r {
        assert(describes_svg_error(failure->Err_0, m@));
    }
    r
}

/// A successful conversion never hands back a short or empty byte sequence:
/// PNG bytes hold at least the signature and the image header.
pub proof fn lemma_png_is_never_empty(bytes: Seq<u8>)
    requires
        is_png(bytes),
    ensures
        bytes.len() >= 24,
{
    let (w, h) = choose|w: u32, h: u32| #[trigger] is_png_of_size(bytes, w, h);
}

} // verus!

verus! {

/// Converting the same text with the same fallback font twice gives the same
/// bytes: any two successful conversions of one input agree.
pub proof fn lemma_conversion_is_deterministic(svg: Seq<char>, font: Seq<u8>, first: Seq<u8>, second: Seq<u8>)
    requires
        first == conversion_bytes(svg, font),
        second == conversion_bytes(svg, font),
    ensures
        first == second,
{
}

} // verus!
