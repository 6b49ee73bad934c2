//! What the bytes of an encoded PNG image begin with.
use vstd::prelude::*;

verus! {

/// The eight bytes that open every PNG file.
pub open spec fn png_signature() -> Seq<u8> {
    seq![137u8, 80u8, 78u8, 71u8, 13u8, 10u8, 26u8, 10u8]
}

/// The big-endian 32-bit number stored at `b[i..i + 4]`.
pub open spec fn be_u32_at(b: Seq<u8>, i: int) -> int {
    b[i] as int * 0x1000000 + b[i + 1] as int * 0x10000 + b[i + 2] as int * 0x100 + b[i + 3] as int
}

/// `b` opens with the PNG signature followed by an image header chunk
/// (length 13, type `IHDR`) that declares `width` by `height` pixels.
pub open spec fn png_header(b: Seq<u8>, width: u32, height: u32) -> bool {
    &&& b.len() >= 24
    &&& b.subrange(0, 8) == png_signature()
    &&& b.subrange(8, 16) == seq![0u8, 0u8, 0u8, 13u8, 73u8, 72u8, 68u8, 82u8]
    &&& be_u32_at(b, 16) == width as int
    &&& be_u32_at(b, 20) == height as int
}

/// The PNG file that encodes `width` by `height` premultiplied RGBA pixels as
/// straight 8-bit RGBA.
pub uninterp spec fn png_encoding(pixels: Seq<u8>, width: u32, height: u32) -> Seq<u8>;

} // verus!
