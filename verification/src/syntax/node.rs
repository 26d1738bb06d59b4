//! An interior-node payload tagged with an expression shape.

use vstd::prelude::*;

verus! {

/// A structural tree-vertex payload carrying only its kind tag.
#[derive(Clone, Debug, Eq, PartialEq)]
pub struct SyntaxNode {
    kind: SyntaxNodeKind,
}

impl View for SyntaxNode {
    type V = SyntaxNodeKind;

    /// A syntax node abstracts to its kind tag.
    closed spec fn view(&self) -> SyntaxNodeKind {
        self.kind
    }
}

impl SyntaxNode {
    /// Creates a node payload of the given kind.
    pub fn new(kind: SyntaxNodeKind) -> (n: Self)
        ensures
            n@ == kind,
    {
        Self { kind }
    }
}

/// The closed set of structural kinds a [`SyntaxNode`] can carry.
#[derive(Copy, Clone, Debug, Eq, PartialEq, Structural)]
pub enum SyntaxNodeKind {
    Expr(Expr),
}

/// The expression shapes an interior node can take.
#[derive(Copy, Clone, Debug, Eq, PartialEq, Structural)]
pub enum Expr {
    Binary,
    Unary,
}

} // verus!
