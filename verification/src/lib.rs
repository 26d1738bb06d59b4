//! An allocation-stable tree arena. Nodes live in one append-only store and
//! are addressed by copyable position handles instead of pointers; linking a
//! child writes both directions of the parent/child relation at once. A small
//! interning cache deduplicates repeated immutable payloads by key.

pub mod arena;
pub mod cache;
pub mod node;
pub mod syntax;
pub mod token;

pub use crate::arena::Arena;
pub use crate::arena::Node;
pub use crate::arena::NodeId;
pub use crate::arena::NodeView;
