//! Plain lexical records: a shared raw token classification (kind plus
//! canonical text), and positioned token occurrences that reference one such
//! record each. Identical lexemes are meant to share a single record,
//! obtained through [`crate::cache::Cache`].

use std::rc::Rc;
use vstd::prelude::*;

verus! {

/// The mathematical content of a raw lexical record: its kind tag and its
/// canonical source text.
pub struct RawTokenView {
    pub kind: SyntaxTokenKind,
    pub text: Seq<char>,
}

/// The kind and canonical text shared by every occurrence of one lexeme.
/// Cheaply shareable (behind `Rc`), so many tokens can reference one record
/// without duplicating it.
#[derive(Clone, Debug, Eq, PartialEq)]
pub struct RawSyntaxTokenData {
    kind: SyntaxTokenKind,
    text: String,
}

impl View for RawSyntaxTokenData {
    type V = RawTokenView;

    /// A raw record abstracts to its kind and its text's characters.
    closed spec fn view(&self) -> RawTokenView {
        RawTokenView { kind: self.kind, text: self.text@ }
    }
}

impl RawSyntaxTokenData {
    /// Creates a raw lexical record of the given kind and canonical text.
    pub fn new(kind: SyntaxTokenKind, text: String) -> (r: Self)
        ensures
            r@ == (RawTokenView { kind, text: text@ }),
    {
        Self { kind, text }
    }
}

/// The mathematical content of one token occurrence: the shared record it
/// references, where it starts, and how far it spans.
pub struct TokenView {
    pub raw: RawTokenView,
    pub start: int,
    pub len: int,
}

/// One positioned occurrence of a lexeme: a shared raw record plus the
/// occurrence's start position and length in the source text.
#[derive(Clone, Debug, Eq, PartialEq)]
pub struct SyntaxToken {
    raw: Rc<RawSyntaxTokenData>,
    start: usize,
    len: usize,
}

impl View for SyntaxToken {
    type V = TokenView;

    /// A token abstracts to its record's content and its span.
    closed spec fn view(&self) -> TokenView {
        TokenView { raw: self.raw@, start: self.start as int, len: self.len as int }
    }
}

impl SyntaxToken {
    /// Creates a token occurrence over the given shared record and span.
    pub fn new(raw: Rc<RawSyntaxTokenData>, start: usize, len: usize) -> (t: Self)
        ensures
            t@ == (TokenView { raw: raw@, start: start as int, len: len as int }),
    {
        Self { raw, start, len }
    }
}

/// The lexical classification of a token.
#[derive(Copy, Clone, Debug, Eq, PartialEq, Structural)]
pub enum SyntaxTokenKind {
    Identifier,
    Keyword(Keyword),
    Literal(Literal),
    Symbol(Symbol),
}

/// The keywords the example language distinguishes.
#[derive(Copy, Clone, Debug, Eq, PartialEq, Structural)]
pub enum Keyword {
    Def,
    Let,
}

/// The literal shapes the example language distinguishes.
#[derive(Copy, Clone, Debug, Eq, PartialEq, Structural)]
pub enum Literal {
    Char,
    Float,
    Integer,
    String,
}

/// The symbols the example language distinguishes.
#[derive(Copy, Clone, Debug, Eq, PartialEq, Structural)]
pub enum Symbol {
    Asterisk,
    Eq,
    Minus,
    Plus,
}

} // verus!
