//! The structural pattern matcher.
//!
//! Two patterns are tried on every candidate node.  Pattern 1 is an `if`
//! without an `else` whose body is a single statement that is itself an
//! `if` without an `else`; pattern 2 is an `if` or `if let` whose `else`
//! branch is a block holding a single nested conditional (with any
//! `else`).  Alternatives inside a pattern — statement form `Expr` before
//! `Semi`, node kind `If` before `IfLet` — are tried in declaration
//! order and the first that matches wins; the captures of a successful
//! match are named spans and precedence classes resolved against the
//! matched subtrees.  A failed match binds nothing.  The declarative
//! shapes are compiled into these functions once and for all — no
//! pattern value exists at run time — and the spec functions beside
//! each matcher state the shape it accepts.

use crate::ast::{stmt_expr, spec_prec_of, spec_span_of, expr_prec, expr_span, Block, Expr, Stmt};
use crate::span::Span;
use vstd::prelude::*;

verus! {

/// Captures of pattern 1 (`if` without `else` around a nested `if`):
/// `check` is the outer condition, `check_inner` the nested one,
/// `content` the nested `if`'s body block, `body` the outer `if`'s body
/// block (the region whose braces the rewrite removes), and `inner` the
/// whole nested `if` node.  Conditions are captured as their span plus
/// their precedence class, which is all the synthesizer reads of them.
#[derive(Clone, Copy, PartialEq, Eq, Structural, Debug)]
pub struct IfNoElseMatch {
    pub check_span: Span,
    pub check_prec: u32,
    pub check_inner_span: Span,
    pub check_inner_prec: u32,
    pub content_span: Span,
    pub body_span: Span,
    pub inner_span: Span,
}

/// Captures of pattern 2 (`else` block around a nested conditional):
/// `block` is the `else` block expression (the region the rewrite
/// replaces), `block_inner` the block itself (the region the comment
/// guard inspects), and `els` the nested conditional node.
#[derive(Clone, Copy, PartialEq, Eq, Structural, Debug)]
pub struct ElseNestedMatch {
    pub block_span: Span,
    pub block_inner_span: Span,
    pub els_span: Span,
}

/// Whether `e` is an `if` without an `else`.
pub open spec fn is_if_no_else(e: Expr) -> bool {
    &&& e matches Expr::If { els, .. }
    &&& els is None
}

/// Whether `e` is an `if` or an `if let`, with or without an `else`.
pub open spec fn is_conditional(e: Expr) -> bool {
    e matches Expr::If { .. } || e matches Expr::IfLet { .. }
}

/// Pattern 1: an `if` without an `else` whose body block holds exactly
/// one statement, itself an `if` without an `else` (as an expression
/// statement or terminated by `;`).
pub open spec fn p1_matches(e: Expr) -> bool {
    &&& e matches Expr::If { body, els, .. }
    &&& els is None
    &&& body.stmts@.len() == 1
    &&& stmt_expr(body.stmts@[0]) matches Some(inner)
    &&& is_if_no_else(inner)
}

/// The outer `if`'s body block, for an `if` node.
pub open spec fn p1_body(e: Expr) -> Block
    recommends
        e matches Expr::If { .. },
{
    match e {
        Expr::If { body, .. } => body,
        _ => arbitrary(),
    }
}

/// The outer condition captured by pattern 1.
pub open spec fn p1_check(e: Expr) -> Expr
    recommends
        e matches Expr::If { .. },
{
    match e {
        Expr::If { cond, .. } => *cond,
        _ => arbitrary(),
    }
}

/// The nested `if` node captured by pattern 1.
pub open spec fn p1_inner(e: Expr) -> Expr
    recommends
        p1_matches(e),
{
    match stmt_expr(p1_body(e).stmts@[0]) {
        Some(inner) => inner,
        None => arbitrary(),
    }
}

/// The nested condition captured by pattern 1.
pub open spec fn p1_check_inner(e: Expr) -> Expr
    recommends
        p1_matches(e),
{
    p1_check(p1_inner(e))
}

/// The nested `if`'s body block captured by pattern 1.
pub open spec fn p1_content(e: Expr) -> Block
    recommends
        p1_matches(e),
{
    p1_body(p1_inner(e))
}

/// The named captures of a successful pattern-1 match.
pub open spec fn p1_caps(e: Expr) -> IfNoElseMatch
    recommends
        p1_matches(e),
{
    IfNoElseMatch {
        check_span: spec_span_of(p1_check(e)),
        check_prec: spec_prec_of(p1_check(e)),
        check_inner_span: spec_span_of(p1_check_inner(e)),
        check_inner_prec: spec_prec_of(p1_check_inner(e)),
        content_span: p1_content(e).span,
        body_span: p1_body(e).span,
        inner_span: spec_span_of(p1_inner(e)),
    }
}

/// Whether a block holds exactly one statement whose expression is a
/// conditional — the shape an `else` block must have to collapse.
pub open spec fn block_single_conditional(b: Block) -> bool {
    &&& b.stmts@.len() == 1
    &&& stmt_expr(b.stmts@[0]) matches Some(x)
    &&& is_conditional(x)
}

/// Whether an `else` expression is a block holding a single nested
/// conditional.
pub open spec fn else_matches(b: Expr) -> bool {
    &&& b matches Expr::Block { block, .. }
    &&& block_single_conditional(block)
}

/// The `else` expression of a conditional node, if any.
pub open spec fn els_of(e: Expr) -> Option<Box<Expr>> {
    match e {
        Expr::If { els, .. } => els,
        Expr::IfLet { els, .. } => els,
        _ => None,
    }
}

/// First alternative of pattern 2: an `if` whose `else` branch is a
/// block expression holding a single nested conditional.
pub open spec fn p2_via_if(e: Expr) -> bool {
    &&& e matches Expr::If { els, .. }
    &&& els matches Some(bx)
    &&& else_matches(*bx)
}

/// Second alternative of pattern 2: the same shape on an `if let`.
pub open spec fn p2_via_iflet(e: Expr) -> bool {
    &&& e matches Expr::IfLet { els, .. }
    &&& els matches Some(bx)
    &&& else_matches(*bx)
}

/// Pattern 2: the ordered alternation of its two alternatives.
pub open spec fn p2_matches(e: Expr) -> bool {
    p2_via_if(e) || p2_via_iflet(e)
}

/// The `else` block expression captured by pattern 2.
pub open spec fn p2_block(e: Expr) -> Expr
    recommends
        p2_matches(e),
{
    match els_of(e) {
        Some(bx) => *bx,
        None => arbitrary(),
    }
}

/// The block inside the `else` expression captured by pattern 2.
pub open spec fn p2_block_inner(e: Expr) -> Block
    recommends
        p2_matches(e),
{
    match p2_block(e) {
        Expr::Block { block, .. } => block,
        _ => arbitrary(),
    }
}

/// The nested conditional captured by pattern 2.
pub open spec fn p2_else(e: Expr) -> Expr
    recommends
        p2_matches(e),
{
    match stmt_expr(p2_block_inner(e).stmts@[0]) {
        Some(x) => x,
        None => arbitrary(),
    }
}

/// The named captures of a successful pattern-2 match.
pub open spec fn p2_caps(e: Expr) -> ElseNestedMatch
    recommends
        p2_matches(e),
{
    ElseNestedMatch {
        block_span: spec_span_of(p2_block(e)),
        block_inner_span: p2_block_inner(e).span,
        els_span: spec_span_of(p2_else(e)),
    }
}

/// Matches pattern 1 against a node.  Returns the captures exactly when
/// the pattern structurally fits; a mismatch binds nothing.
pub fn pat_if_without_else(e: &Expr) -> (r: Option<IfNoElseMatch>)
    ensures
        r is Some <==> p1_matches(*e),
        r matches Some(m) ==> m == p1_caps(*e),
{
    match e {
        Expr::If { cond, body, els: None, .. } => {
            if body.stmts.len() == 1 {
                match &body.stmts[0] {
                    Stmt::Expr(inner) | Stmt::Semi(inner) => match inner {
                        Expr::If { cond: icond, body: ibody, els: None, .. } => Some(
                            IfNoElseMatch {
                                check_span: expr_span(&**cond),
                                check_prec: expr_prec(&**cond),
                                check_inner_span: expr_span(&**icond),
                                check_inner_prec: expr_prec(&**icond),
                                content_span: ibody.span,
                                body_span: body.span,
                                inner_span: expr_span(inner),
                            },
                        ),
                        _ => None,
                    },
                    Stmt::Other(_) => None,
                }
            } else {
                None
            }
        },
        _ => None,
    }
}

/// Matches pattern 2 against a node, trying the `If` alternative before
/// the `IfLet` alternative; the first alternative that fits decides the
/// captures and the later one is never consulted.
pub fn pat_if_else(e: &Expr) -> (r: Option<ElseNestedMatch>)
    ensures
        r is Some <==> p2_matches(*e),
        r matches Some(m) ==> m == p2_caps(*e),
{
    match e {
        Expr::If { els: Some(bx), .. } => else_block_match(&**bx),
        Expr::IfLet { els: Some(bx), .. } => else_block_match(&**bx),
        _ => None,
    }
}

/// Matches the `else` expression of either pattern-2 alternative: a
/// block whose single statement is a nested conditional.
fn else_block_match(b: &Expr) -> (r: Option<ElseNestedMatch>)
    ensures
        r is Some <==> else_matches(*b),
        r matches Some(m) ==> *b matches Expr::Block { span, block } && m == (ElseNestedMatch {
            block_span: span,
            block_inner_span: block.span,
            els_span: spec_span_of(stmt_expr(block.stmts@[0])->0),
        }),
{
    match b {
        Expr::Block { span, block } => {
            if block.stmts.len() == 1 {
                match &block.stmts[0] {
                    Stmt::Expr(x) | Stmt::Semi(x) => match x {
                        Expr::If { .. } | Expr::IfLet { .. } => Some(ElseNestedMatch {
                            block_span: *span,
                            block_inner_span: block.span,
                            els_span: expr_span(x),
                        }),
                        _ => None,
                    },
                    Stmt::Other(_) => None,
                }
            } else {
                None
            }
        },
        _ => None,
    }
}

/// Pattern 1 and pattern 2 can never both match one node: pattern 1
/// requires the `else` branch to be absent, pattern 2 requires it to be
/// present.
pub proof fn lemma_patterns_exclusive(e: Expr)
    ensures
        !(p1_matches(e) && p2_matches(e)),
{
}

} // verus!
