use std::rc::Rc;

use cavea::cache::Cache;
use cavea::syntax::node::Expr;
use cavea::syntax::node::SyntaxNode;
use cavea::syntax::node::SyntaxNodeKind;
use cavea::token::Literal;
use cavea::token::RawSyntaxTokenData;
use cavea::token::Symbol;
use cavea::token::SyntaxToken;
use cavea::token::SyntaxTokenKind;
use cavea::Arena;

#[test]
fn test_syntax_node() {
    println!("{}", std::mem::size_of::<SyntaxNode>());
    println!("{}", std::mem::size_of::<SyntaxNodeKind>());
}

#[test]
fn test_syntax_token() {
    println!("{}", std::mem::size_of::<SyntaxToken>());
    println!("{}", std::mem::size_of::<SyntaxTokenKind>());
}

#[derive(Clone, Debug, Eq, PartialEq)]
enum Syntax {
    Node(SyntaxNode),
    Token(SyntaxToken),
}

/// The client's fixed, total classification of a lexeme's text.
fn classify(text: &str) -> SyntaxTokenKind {
    match text {
        "+" => SyntaxTokenKind::Symbol(Symbol::Plus),
        "-" => SyntaxTokenKind::Symbol(Symbol::Minus),
        "*" => SyntaxTokenKind::Symbol(Symbol::Asterisk),
        _ => SyntaxTokenKind::Literal(Literal::Integer),
    }
}

#[test]
fn test_end_to_end_scenario() {
    // Tokens for the texts "1", "+", "-", "1" at positions 0, 2, 4, 5; the
    // last two wrapped in a unary node; everything wrapped in a binary node
    // with the first token as left operand and the unary node on the right.
    let mut interner: Cache<String, Rc<RawSyntaxTokenData>> = Cache::new();
    let arena = &mut Arena::new();

    let texts = ["1", "+", "-", "1"];
    let positions = [0usize, 2, 4, 5];
    let mut raws = Vec::new();
    let mut tokens = Vec::new();
    for (text, position) in texts.iter().zip(positions.iter()) {
        let raw = interner.lookup(
            String::from(*text),
            Rc::new(RawSyntaxTokenData::new(classify(text), String::from(*text))),
        );
        raws.push(Rc::clone(&raw));
        let token = SyntaxToken::new(raw, *position, 1);
        tokens.push(arena.insert(Syntax::Token(token)));
    }

    let unary = arena.insert(Syntax::Node(SyntaxNode::new(SyntaxNodeKind::Expr(Expr::Unary))));
    let binary = arena.insert(Syntax::Node(SyntaxNode::new(SyntaxNodeKind::Expr(Expr::Binary))));

    unary.add_child(arena, tokens[2]).add_child(arena, tokens[3]);
    binary
        .add_child(arena, tokens[0])
        .add_child(arena, tokens[1])
        .add_child(arena, unary);

    assert_eq!(arena.nodes().len(), 6);
    assert_eq!(unary.index(), 4);
    assert_eq!(binary.index(), 5);
    assert_eq!(*unary.children(arena), vec![tokens[2], tokens[3]]);
    assert_eq!(*binary.children(arena), vec![tokens[0], tokens[1], unary]);
    assert_eq!(tokens[2].index(), 2);
    assert_eq!(tokens[3].index(), 3);

    // The two "1" tokens share one interned record: a cache hit on the
    // second occurrence.
    assert!(Rc::ptr_eq(&raws[0], &raws[3]));
    // "+" and "-" each produced their own record on first sight.
    assert!(!Rc::ptr_eq(&raws[0], &raws[1]));
    assert!(!Rc::ptr_eq(&raws[0], &raws[2]));
    assert!(!Rc::ptr_eq(&raws[1], &raws[2]));
}
