//! A CSS-like box-layout style and tree library.
//!
//! The heart of the crate is a partial `Style` value: a record of fifty
//! independent layout properties together with a bitmask that remembers which
//! of them were explicitly set, a cascade-style merge operator over such
//! records, and a value-level coercion to and from the compact tagged word
//! representation that the layout engine stores dimensions in.  Around it sit
//! the value vocabulary handed to callers, a tree of styled nodes with a
//! verified lifecycle, the decision rules of the leaf-measure bridge, and the
//! error taxonomy.

pub mod compact;
pub mod dimensions;
pub mod enums;
pub mod errors;
pub mod grid;
pub mod measure;
pub mod style;
pub mod style_fields;
pub mod tree;
pub mod values;
