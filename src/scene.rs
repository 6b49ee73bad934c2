//! Fonts and the parsed scene.
use vstd::prelude::*;

use resvg::usvg::fontdb::Database;
use resvg::usvg::{Error, ImageKind, Tree};

verus! {

#[verifier::external_type_specification]
#[verifier::external_body]
pub struct ExDatabase(Database);

#[verifier::external_type_specification]
#[verifier::external_body]
pub struct ExTree(Tree);

#[verifier::external_type_specification]
#[verifier::external_body]
pub struct ExXmlError(resvg::usvg::roxmltree::Error);

#[verifier::external_type_specification]
pub struct ExSvgError(Error);

#[verifier::external_type_specification]
#[verifier::external_body]
pub struct ExImageKind(ImageKind);

/// The font data blobs that a database holds faces of.
pub uninterp spec fn font_data(db: Database) -> Set<Seq<u8>>;

/// Whether at least one font face in `data` can be read and carries a
/// family name and a PostScript name.
pub uninterp spec fn holds_font_face(data: Seq<u8>) -> bool;

/// The family name of the first face in the font data `data` that can be
/// read and is named.
pub uninterp spec fn family_name_of(data: Seq<u8>) -> Seq<char>;

/// The family that a database resolves the generic `serif` family to; text
/// whose own families all fail to match falls back to it.
pub uninterp spec fn serif_family(db: Database) -> Seq<char>;

/// The family that a database resolves the generic `sans-serif` family to.
pub uninterp spec fn sans_serif_family(db: Database) -> Seq<char>;

/// Whether usvg, with default options, accepts `svg` as a scene. Images that
/// fail to load are skipped, so this depends on the text alone.
pub uninterp spec fn svg_accepted(svg: Seq<char>) -> bool;

/// The scene that usvg builds from `svg` with default options, except that
/// image files are never read, and a font database that holds the faces of
/// exactly the data in `fonts`, resolves the generic serif and sans-serif
/// families to `serif` and `sans_serif`, and keeps fontdb's defaults for the
/// other generic families.
pub uninterp spec fn scene_of(svg: Seq<char>, fonts: Set<Seq<u8>>, serif: Seq<char>, sans_serif: Seq<char>) -> Tree;

/// The intrinsic size of a scene, each side rounded to the nearest whole
/// pixel; a side below half a pixel rounds to zero.
pub uninterp spec fn tree_pixel_size(t: Tree) -> (u32, u32);

/// Relies on fontdb::Database::new: an empty font database whose generic
/// serif and sans-serif families are Times New Roman and Arial.
pub assume_specification[ Database::new ]() -> (r: Database)
    ensures
        font_data(r) == Set::<Seq<u8>>::empty(),
        serif_family(r) == "Times New Roman"@,
        sans_serif_family(r) == "Arial"@,
;

/// Relies on fontdb::Database::load_font_data: the data is kept, as the
/// source of its faces, exactly when at least one face in it can be read; the
/// generic families stay as they were.
pub assume_specification[ Database::load_font_data ](db: &mut Database, data: Vec<u8>)
    ensures
        holds_font_face(data@) ==> font_data(*final(db)) == font_data(*old(db)).insert(data@),
        !holds_font_face(data@) ==> font_data(*final(db)) == font_data(*old(db)),
        serif_family(*final(db)) == serif_family(*old(db)),
        sans_serif_family(*final(db)) == sans_serif_family(*old(db)),
;

/// Relies on fontdb::Database::faces and FaceInfo::families: the family name
/// of the first face, which for a database over one font's data is the first
/// face of that data.
#[verifier::external_body]
fn first_family(db: &Database) -> (r: Option<String>)
    ensures
        font_data(*db).len() == 0 ==> r is None,
        font_data(*db).len() == 1 ==> r is Some,
        font_data(*db).len() == 1 ==> r->Some_0@ == family_name_of(font_data(*db).choose()),
{
    db.faces().next().and_then(|face| face.families.first()).map(|family| family.0.clone())
}

/// Relies on fontdb::Database::set_serif_family: changes that family alone.
#[verifier::external_body]
fn set_serif(db: &mut Database, family: String)
    ensures
        serif_family(*final(db)) == family@,
        sans_serif_family(*final(db)) == sans_serif_family(*old(db)),
        font_data(*final(db)) == font_data(*old(db)),
{
    db.set_serif_family(family)
}

/// Relies on fontdb::Database::set_sans_serif_family: changes that family
/// alone.
#[verifier::external_body]
fn set_sans_serif(db: &mut Database, family: String)
    ensures
        sans_serif_family(*final(db)) == family@,
        serif_family(*final(db)) == serif_family(*old(db)),
        font_data(*final(db)) == font_data(*old(db)),
{
    db.set_sans_serif_family(family)
}

/// Builds the font database that a conversion resolves text with: it holds
/// the faces of `fallback_font` and nothing else, and the generic families,
/// which text falls back to, resolve to the fallback font's family.
pub fn fallback_fonts(fallback_font: &[u8]) -> (r: Database)
    ensures
        holds_font_face(fallback_font@) ==> font_data(r) == Set::<Seq<u8>>::empty().insert(
            fallback_font@,
        ),
        holds_font_face(fallback_font@) ==> serif_family(r) == family_name_of(fallback_font@),
        holds_font_face(fallback_font@) ==> sans_serif_family(r) == family_name_of(fallback_font@),
        !holds_font_face(fallback_font@) ==> font_data(r) == Set::<Seq<u8>>::empty(),
        !holds_font_face(fallback_font@) ==> serif_family(r) == "Times New Roman"@,
        !holds_font_face(fallback_font@) ==> sans_serif_family(r) == "Arial"@,
{
    let mut db = Database::new();
    let data = vstd::slice::slice_to_vec(fallback_font);
    assert(data@ == fallback_font@);
    db.load_font_data(data);
    proof {
        if holds_font_face(fallback_font@) {
            let one = Set::<Seq<u8>>::empty().insert(fallback_font@);
            assert(one.contains(fallback_font@));
            assert(one.contains(one.choose()));
            assert(one.len() == 1);
        }
    }
    if let Some(family) = first_family(&db) {
        set_serif(&mut db, family.clone());
        set_sans_serif(&mut db, family);
    }
    db
}

/// The scene of `svg` parsed with the font database that `fallback_fonts`
/// builds from `font`.
pub open spec fn fallback_scene(svg: Seq<char>, font: Seq<u8>) -> Tree {
    if holds_font_face(font) {
        scene_of(svg, Set::empty().insert(font), family_name_of(font), family_name_of(font))
    } else {
        scene_of(svg, Set::empty(), "Times New Roman"@, "Arial"@)
    }
}

/// Declines every image that names a file: a conversion reads nothing but
/// its own arguments.
pub fn no_file_image(href: &str) -> (r: Option<ImageKind>)
    ensures
        r is None,
{
    None
}

/// Relies on fontdb::Database::len: the number of faces, which is zero
/// exactly when the database holds no font data.
pub assume_specification[ Database::len ](db: &Database) -> (r: usize)
    ensures
        (r == 0) <==> font_data(*db) == Set::<Seq<u8>>::empty(),
;

/// Whether `font` holds a face that text can be drawn with; a bundled
/// fallback font for which this fails is a defect of the build.
pub fn font_is_usable(font: &[u8]) -> (r: bool)
    ensures
        r == holds_font_face(font@),
{
    let db = fallback_fonts(font);
    proof {
        if holds_font_face(font@) {
            assert(font_data(db).contains(font@));
        }
    }
    db.len() > 0
}

/// Relies on usvg::Tree::from_str, with default options but for the font
/// database and an image resolver that reads no files: parses `svg` into a
/// scene, which succeeds exactly when the text is accepted. The scene
/// depends on the text and on the fonts alone.
#[verifier::external_body]
pub(crate) fn parse_scene(svg: &str, fonts: Database) -> (r: Result<Tree, Error>)
    ensures
        r is Ok <==> svg_accepted(svg@),
        r matches Ok(t) ==> t == scene_of(svg@, font_data(fonts), serif_family(fonts), sans_serif_family(fonts)),
{
    let mut opt = resvg::usvg::Options::default();
    opt.fontdb = std::sync::Arc::new(fonts);
    opt.image_href_resolver.resolve_string = Box::new(|href, _| no_file_image(href));
    Tree::from_str(svg, &opt)
}

/// Relies on usvg::Tree::size and f32::round: the scene's intrinsic size,
/// each side rounded to the nearest whole pixel.
#[verifier::external_body]
pub(crate) fn scene_pixel_size(tree: &Tree) -> (r: (u32, u32))
    ensures
        r == tree_pixel_size(*tree),
{
    let size = tree.size();
    (size.width().round() as u32, size.height().round() as u32)
}

/// The text that opens the description of a markup failure; the markup
/// parser's own message follows it.
pub open spec fn markup_failure_prefix() -> Seq<char> {
    "SVG data parsing failed cause "@
}

/// `text` is the description that usvg gives the failure `e`.
pub open spec fn describes_svg_error(e: Error, text: Seq<char>) -> bool {
    match e {
        Error::NotAnUtf8Str => text == "provided data has not an UTF-8 encoding"@,
        Error::MalformedGZip => text == "provided data has a malformed GZip content"@,
        Error::ElementsLimitReached => text == "the maximum number of SVG elements has been reached"@,
        Error::InvalidSize => text == "SVG has an invalid size"@,
        Error::ParsingFailed(_) => {
            &&& text.len() >= markup_failure_prefix().len()
            &&& text.subrange(0, markup_failure_prefix().len() as int) == markup_failure_prefix()
        },
    }
}

/// Relies on the `Display` impl of usvg::Error: a fixed sentence for each
/// failure, and for a markup failure a fixed opening followed by the markup
/// parser's message.
#[verifier::external_body]
pub(crate) fn parse_error_text(e: &Error) -> (r: String)
    ensures
        describes_svg_error(*e, r@),
{
    e.to_string()
}

} // verus!
