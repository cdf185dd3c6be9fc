//! Generates the source text of a wrapper "collection" type around a marker
//! item: a named struct holding a `Vec` of the item, together with its
//! construction, iteration and extension impls. The generation pipeline is
//! driven by name/value attributes found on the marker item.

pub mod docs;
pub mod emit;
pub mod idents;
pub mod input;
pub mod text;
