//! End-to-end scenarios: a source text, its tree, and the diagnostic
//! (or silence) the check produces.

use collapsible_if::ast::{Block, Expr, Stmt};
use collapsible_if::lint::CollapsibleIf;
use collapsible_if::span::Span;
use collapsible_if::suggest::{Applicability, LintKind};

fn sp(lo: usize, hi: usize) -> Span {
    Span { lo, hi, ctxt: 0 }
}

fn atom(lo: usize, hi: usize) -> Expr {
    Expr::Other { span: sp(lo, hi), prec: 18 }
}

#[test]
fn nested_if_collapses() {
    let src = b"if x { if y { foo(); } }".to_vec();
    let inner = Expr::If {
        span: sp(7, 22),
        cond: Box::new(atom(10, 11)),
        body: Block { span: sp(12, 22), stmts: vec![Stmt::Semi(atom(14, 20))] },
        els: None,
    };
    let e = Expr::If {
        span: sp(0, 24),
        cond: Box::new(atom(3, 4)),
        body: Block { span: sp(5, 24), stmts: vec![Stmt::Expr(inner)] },
        els: None,
    };
    let d = CollapsibleIf.check_expr(&src, &e).expect("a suggestion");
    assert_eq!(d.kind, LintKind::NestedIf);
    assert_eq!(d.span, sp(0, 24));
    assert_eq!(d.suggestion.span, sp(0, 24));
    assert_eq!(d.suggestion.text, b"if x && y { foo(); }".to_vec());
    assert_eq!(d.suggestion.applicability, Applicability::MachineApplicable);
}

#[test]
fn leading_comment_suppresses_everything() {
    // The comment leads the outer block, the region the rewrite elides:
    // a textual splice would silently drop it, so nothing is reported.
    let src = b"if x { /* note */ if y { foo(); } }".to_vec();
    let inner = Expr::If {
        span: sp(18, 33),
        cond: Box::new(atom(21, 22)),
        body: Block { span: sp(23, 33), stmts: vec![Stmt::Semi(atom(25, 31))] },
        els: None,
    };
    let e = Expr::If {
        span: sp(0, 35),
        cond: Box::new(atom(3, 4)),
        body: Block { span: sp(5, 35), stmts: vec![Stmt::Expr(inner)] },
        els: None,
    };
    assert!(CollapsibleIf.check_expr(&src, &e).is_none());
}

#[test]
fn else_nested_if_promotes() {
    let src = b"if x { foo(); } else { if y { bar(); } }".to_vec();
    let inner = Expr::If {
        span: sp(23, 38),
        cond: Box::new(atom(26, 27)),
        body: Block { span: sp(28, 38), stmts: vec![Stmt::Semi(atom(30, 36))] },
        els: None,
    };
    let els = Expr::Block {
        span: sp(21, 40),
        block: Block { span: sp(21, 40), stmts: vec![Stmt::Expr(inner)] },
    };
    let e = Expr::If {
        span: sp(0, 40),
        cond: Box::new(atom(3, 4)),
        body: Block { span: sp(5, 15), stmts: vec![Stmt::Semi(atom(7, 13))] },
        els: Some(Box::new(els)),
    };
    let d = CollapsibleIf.check_expr(&src, &e).expect("a suggestion");
    assert_eq!(d.kind, LintKind::ElseNestedIf);
    assert_eq!(d.span, sp(21, 40));
    assert_eq!(d.suggestion.span, sp(21, 40));
    assert_eq!(d.suggestion.text, b"if y { bar(); }".to_vec());
    assert_eq!(d.suggestion.applicability, Applicability::MachineApplicable);
}

#[test]
fn hygiene_mismatch_suppresses() {
    // The inner `if` was produced by a macro expansion (context 1),
    // the outer one was not: splicing their texts is unsound, so the
    // match is discarded.
    let src = b"if x { m!(if y { z(); }) }".to_vec();
    let inner = Expr::If {
        span: Span { lo: 10, hi: 23, ctxt: 1 },
        cond: Box::new(atom(13, 14)),
        body: Block { span: sp(15, 23), stmts: vec![Stmt::Semi(atom(17, 21))] },
        els: None,
    };
    let e = Expr::If {
        span: sp(0, 26),
        cond: Box::new(atom(3, 4)),
        body: Block { span: sp(5, 26), stmts: vec![Stmt::Expr(inner)] },
        els: None,
    };
    assert!(CollapsibleIf.check_expr(&src, &e).is_none());
}

#[test]
fn else_nested_if_let_promotes() {
    let src = b"if x { a(); } else { if let Some(y) = opt { b(y); } }".to_vec();
    let inner = Expr::IfLet {
        span: sp(21, 51),
        body: Block { span: sp(42, 51), stmts: vec![Stmt::Semi(atom(44, 49))] },
        els: None,
    };
    let els = Expr::Block {
        span: sp(19, 53),
        block: Block { span: sp(19, 53), stmts: vec![Stmt::Expr(inner)] },
    };
    let e = Expr::If {
        span: sp(0, 53),
        cond: Box::new(atom(3, 4)),
        body: Block { span: sp(5, 13), stmts: vec![Stmt::Semi(atom(7, 11))] },
        els: Some(Box::new(els)),
    };
    let d = CollapsibleIf.check_expr(&src, &e).expect("a suggestion");
    assert_eq!(d.kind, LintKind::ElseNestedIf);
    assert_eq!(d.span, sp(19, 53));
    assert_eq!(d.suggestion.text, b"if let Some(y) = opt { b(y); }".to_vec());
    assert_eq!(d.suggestion.applicability, Applicability::MachineApplicable);
}

#[test]
fn replacement_does_not_match_again() {
    // The synthesized replacement for the first scenario, reparsed:
    // one `if` whose condition is `x && y` and whose body holds no
    // conditional.  The matcher finds nothing in it.
    let src = b"if x && y { foo(); }".to_vec();
    let cond = Expr::And {
        span: sp(3, 9),
        lhs: Box::new(atom(3, 4)),
        rhs: Box::new(atom(8, 9)),
    };
    let e = Expr::If {
        span: sp(0, 20),
        cond: Box::new(cond),
        body: Block { span: sp(10, 20), stmts: vec![Stmt::Semi(atom(12, 18))] },
        els: None,
    };
    assert!(CollapsibleIf.check_expr(&src, &e).is_none());
}

#[test]
fn else_replacement_does_not_match_again() {
    // After promotion the `else` branch is the conditional itself, not
    // a block around it, so pattern 2 no longer fits the node.
    let src = b"if x { foo(); } else if y { bar(); }".to_vec();
    let promoted = Expr::If {
        span: sp(21, 36),
        cond: Box::new(atom(24, 25)),
        body: Block { span: sp(26, 36), stmts: vec![Stmt::Semi(atom(28, 34))] },
        els: None,
    };
    let e = Expr::If {
        span: sp(0, 36),
        cond: Box::new(atom(3, 4)),
        body: Block { span: sp(5, 15), stmts: vec![Stmt::Semi(atom(7, 13))] },
        els: Some(Box::new(promoted)),
    };
    assert!(CollapsibleIf.check_expr(&src, &e).is_none());
}

#[test]
fn deep_chain_collapses_one_level_per_match() {
    // Each match removes exactly one level of nesting: the suggestion
    // for a three-deep chain still contains the innermost `if`.
    let src = b"if a { if b { if c { x(); } } }".to_vec();
    let innermost = Expr::If {
        span: sp(14, 27),
        cond: Box::new(atom(17, 18)),
        body: Block { span: sp(19, 27), stmts: vec![Stmt::Semi(atom(21, 25))] },
        els: None,
    };
    let middle = Expr::If {
        span: sp(7, 29),
        cond: Box::new(atom(10, 11)),
        body: Block { span: sp(12, 29), stmts: vec![Stmt::Expr(innermost)] },
        els: None,
    };
    let e = Expr::If {
        span: sp(0, 31),
        cond: Box::new(atom(3, 4)),
        body: Block { span: sp(5, 31), stmts: vec![Stmt::Expr(middle)] },
        els: None,
    };
    let d = CollapsibleIf.check_expr(&src, &e).expect("a suggestion");
    assert_eq!(d.suggestion.text, b"if a && b { if c { x(); } }".to_vec());
}

#[test]
fn low_precedence_condition_gets_parentheses() {
    // `a || b` binds looser than `&&`, so the collapse parenthesizes it;
    // the atomic `y` is left bare.
    let src = b"if a || b { if y { f(); } }".to_vec();
    let inner = Expr::If {
        span: sp(12, 25),
        cond: Box::new(atom(15, 16)),
        body: Block { span: sp(17, 25), stmts: vec![Stmt::Semi(atom(19, 23))] },
        els: None,
    };
    let e = Expr::If {
        span: sp(0, 27),
        cond: Box::new(Expr::Other { span: sp(3, 9), prec: 11 }),
        body: Block { span: sp(10, 27), stmts: vec![Stmt::Expr(inner)] },
        els: None,
    };
    let d = CollapsibleIf.check_expr(&src, &e).expect("a suggestion");
    assert_eq!(d.suggestion.text, b"if (a || b) && y { f(); }".to_vec());
}
