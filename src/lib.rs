//! Rendering-options resolution and raster output pipeline.
//!
//! The library decodes a render configuration, plans font setup, works out
//! the target canvas size, prepares the canvas, has usvg parse and resvg
//! paint the document, crops the result and encodes it as PNG. Reading
//! fonts from disk is left to the caller, who hands in the font database
//! with the parser options.

pub mod canvas;
pub mod color;
pub mod document;
pub mod encode;
pub mod error;
pub mod fit;
pub mod fonts;
pub mod message;
pub mod options;
pub mod render;
