//! The ways a conversion can fail.
use vstd::prelude::*;

verus! {

/// Why a conversion produced no image. Each variant carries the
/// human-readable text that a caller across a host boundary receives.
#[derive(Debug, PartialEq, Eq)]
pub enum ConversionError {
    /// The text could not be interpreted as an SVG scene.
    Parse(String),
    /// The document's size is degenerate, or no canvas of that size can be
    /// made.
    Allocation(String),
    /// The painted canvas could not be serialized as PNG.
    Encode(String),
}

/// The text that a conversion error carries.
pub open spec fn error_text(e: ConversionError) -> Seq<char> {
    match e {
        ConversionError::Parse(m) => m@,
        ConversionError::Allocation(m) => m@,
        ConversionError::Encode(m) => m@,
    }
}

impl ConversionError {
    /// The message that describes this error to a caller.
    pub fn message(&self) -> (r: String)
        ensures
            r@ == error_text(*self),
    {
        match self {
            ConversionError::Parse(m) => m.clone(),
            ConversionError::Allocation(m) => m.clone(),
            ConversionError::Encode(m) => m.clone(),
        }
    }
}

} // verus!
