//! Expression-shaped client payloads: the node records a tree builder stores
//! in an [`crate::Arena`] when assembling expression trees.

pub mod node;
