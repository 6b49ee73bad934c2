//! Conversion of SVG documents into PNG images.
//!
//! The library orchestrates an outside parser, rasterizer and encoder and
//! states, for each stage, what its outcome is and how every failure is
//! classified.
mod canvas;
mod error;
mod pipeline;
mod png;
mod render;
mod scene;

pub use canvas::{allocate_canvas, canvas_fits};
pub use error::ConversionError;
pub use pipeline::{convert_parsed, lemma_conversion_is_deterministic, lemma_png_is_never_empty, parse_failure, svg_to_png_internal};
pub use render::{render_at_size, render_on_canvas};
pub use scene::{fallback_fonts, font_is_usable, no_file_image};
