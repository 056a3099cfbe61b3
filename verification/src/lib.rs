//! Converts a run of text, rendered against a font face, into flattened
//! geometric primitives: point-sampled outlines, filled triangle meshes and
//! stroked triangle meshes, each tagged with the glyph and sub-path that
//! produced it and, for color fonts, the paint color of each layer.
//!
//! The geometry itself (curve flattening, tessellation, transform
//! application) is delegated to the `lyon` crates, and font parsing to
//! `ttf-parser`; those calls stand behind trusted declarations. Everything
//! the library computes on its own — pen positioning, kerning lookup order,
//! glyph and sub-path identifiers, paint layers, column assembly — is
//! verified.

pub mod builder;
pub mod color;
pub mod font;
pub mod geom;
pub mod into_fill_stroke;
pub mod into_path;
pub mod laws;
pub mod result;
pub mod sink;
