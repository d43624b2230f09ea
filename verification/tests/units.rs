//! Unit tests for the text helpers, the synthesizer pieces, and the
//! matcher taken on its own.

use collapsible_if::ast::{Block, Expr, Stmt};
use collapsible_if::lint::CollapsibleIf;
use collapsible_if::matcher::{pat_if_else, pat_if_without_else};
use collapsible_if::span::{in_macro, same_context, Span};
use collapsible_if::suggest::LintKind;
use collapsible_if::text::{block_starts_with_comment, snippet_with_fallback};

fn sp(lo: usize, hi: usize) -> Span {
    Span { lo, hi, ctxt: 0 }
}

fn atom(lo: usize, hi: usize) -> Expr {
    Expr::Other { span: sp(lo, hi), prec: 18 }
}

#[test]
fn snippet_is_verbatim() {
    let src = b"abc def".to_vec();
    let (text, exact) = snippet_with_fallback(&src, sp(4, 7));
    assert!(exact);
    assert_eq!(text, b"def".to_vec());
}

#[test]
fn snippet_out_of_range_falls_back() {
    let src = b"abc".to_vec();
    let (text, exact) = snippet_with_fallback(&src, sp(1, 9));
    assert!(!exact);
    assert_eq!(text, b"..".to_vec());
}

#[test]
fn comment_after_brace_and_whitespace_is_found() {
    let src = b"{ \t\n// c }".to_vec();
    assert!(block_starts_with_comment(&src, sp(0, src.len())));
}

#[test]
fn block_comment_is_found() {
    let src = b"{ /* c */ }".to_vec();
    assert!(block_starts_with_comment(&src, sp(0, src.len())));
}

#[test]
fn code_is_not_a_comment() {
    let src = b"{ x / y }".to_vec();
    assert!(!block_starts_with_comment(&src, sp(0, src.len())));
}

#[test]
fn double_brace_is_stripped() {
    let src = b"{{ // c }}".to_vec();
    assert!(block_starts_with_comment(&src, sp(0, src.len())));
}

#[test]
fn out_of_range_region_has_no_comment() {
    let src = b"// c".to_vec();
    assert!(!block_starts_with_comment(&src, sp(0, 99)));
}

#[test]
fn span_queries() {
    assert!(in_macro(&Span { lo: 0, hi: 1, ctxt: 5 }));
    assert!(!in_macro(&sp(0, 1)));
    assert!(same_context(&Span { lo: 0, hi: 1, ctxt: 5 }, &Span { lo: 9, hi: 9, ctxt: 5 }));
    assert!(!same_context(&sp(0, 1), &Span { lo: 0, hi: 1, ctxt: 5 }));
}

#[test]
fn matcher_captures_all_names() {
    // `if x { if y { foo(); } }` — every capture of pattern 1 resolves
    // to the span of the subtree that satisfied its position.
    let inner = Expr::If {
        span: sp(7, 22),
        cond: Box::new(atom(10, 11)),
        body: Block { span: sp(12, 22), stmts: vec![Stmt::Semi(atom(14, 20))] },
        els: None,
    };
    let e = Expr::If {
        span: sp(0, 24),
        cond: Box::new(atom(3, 4)),
        body: Block { span: sp(5, 24), stmts: vec![Stmt::Expr(inner)] },
        els: None,
    };
    let m = pat_if_without_else(&e).expect("a match");
    assert_eq!(m.check_span, sp(3, 4));
    assert_eq!(m.check_inner_span, sp(10, 11));
    assert_eq!(m.content_span, sp(12, 22));
    assert_eq!(m.body_span, sp(5, 24));
    assert_eq!(m.inner_span, sp(7, 22));
}

#[test]
fn semi_statement_matches_too() {
    // A nested `if` carried by a `Semi` statement matches just like an
    // expression statement (the first alternative's twin).
    let inner = Expr::If {
        span: sp(7, 22),
        cond: Box::new(atom(10, 11)),
        body: Block { span: sp(12, 22), stmts: vec![Stmt::Semi(atom(14, 20))] },
        els: None,
    };
    let e = Expr::If {
        span: sp(0, 24),
        cond: Box::new(atom(3, 4)),
        body: Block { span: sp(5, 24), stmts: vec![Stmt::Semi(inner)] },
        els: None,
    };
    assert!(pat_if_without_else(&e).is_some());
}

#[test]
fn else_matcher_needs_a_block() {
    // An `else if` chain — the else branch is a conditional, not a
    // block — is exactly what pattern 2 must not match.
    let chained = Expr::If {
        span: sp(21, 36),
        cond: Box::new(atom(24, 25)),
        body: Block { span: sp(26, 36), stmts: vec![Stmt::Semi(atom(28, 34))] },
        els: None,
    };
    let e = Expr::If {
        span: sp(0, 36),
        cond: Box::new(atom(3, 4)),
        body: Block { span: sp(5, 15), stmts: vec![Stmt::Semi(atom(7, 13))] },
        els: Some(Box::new(chained)),
    };
    assert!(pat_if_else(&e).is_none());
}

#[test]
fn messages_and_name() {
    assert_eq!(CollapsibleIf.name(), "CollapsibleIf");
    assert_eq!(LintKind::NestedIf.message(), "this if statement can be collapsed");
    assert_eq!(
        LintKind::ElseNestedIf.message(),
        "this `else { if .. }` block can be collapsed"
    );
}
