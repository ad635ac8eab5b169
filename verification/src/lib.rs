//! A constraint-based box-layout engine for trees of abstract UI elements.
//!
//! Given a viewport extent and a base unit size, the engine resolves a
//! concrete box (outer, inner, content and core layers) for every node of a
//! layout tree in two passes: a measure pass that resolves sizes bottom-up
//! under top-down budgets, and a position pass that assigns absolute origins
//! top-down. Both passes are verified against recursive specifications of
//! the boxes they produce.

pub mod boxes;
pub mod engine;
pub mod laws;
pub mod measure;
pub mod node;
pub mod nums;
pub mod objects;
pub mod position;
pub mod size;
pub mod tree;
pub mod validate;
