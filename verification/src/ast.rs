//! The expression-tree model that the matcher walks.
//!
//! The host parses source text and owns the real tree; this model holds,
//! as plain values, exactly what the matcher and the guards read of it:
//! the node kind, the sub-structure relevant to the two patterns, each
//! node's span, and the precedence class of opaque expressions (needed to
//! decide minimal parenthesization when conditions are conjoined).

use crate::span::Span;
use vstd::prelude::*;

verus! {

/// Precedence of the logical-AND operator on the model's scale.
/// Higher values bind tighter; a side of a synthesized `&&` is
/// parenthesized exactly when its own precedence is lower than this.
pub const AND_PREC: u32 = 12;

/// Precedence assigned to block-like expressions, which never need
/// parentheses of their own.
pub const BLOCK_PREC: u32 = 18;

/// A brace-delimited sequence of statements.
#[derive(Debug)]
pub struct Block {
    pub span: Span,
    pub stmts: Vec<Stmt>,
}

/// A statement: an expression, an expression terminated by `;`, or any
/// other statement form, modelled by its span alone.
#[derive(Debug)]
pub enum Stmt {
    Expr(Expr),
    Semi(Expr),
    Other(Span),
}

/// The expression grammar the matcher reads.  Conditions and every other
/// expression shape the patterns do not look into stand as `Other`,
/// carrying the span and the precedence class the host assigns them.
/// `And` is the short-circuit conjunction that a collapse introduces.
#[derive(Debug)]
pub enum Expr {
    If { span: Span, cond: Box<Expr>, body: Block, els: Option<Box<Expr>> },
    IfLet { span: Span, body: Block, els: Option<Box<Expr>> },
    Block { span: Span, block: Block },
    And { span: Span, lhs: Box<Expr>, rhs: Box<Expr> },
    Other { span: Span, prec: u32 },
}

/// The span of an expression node.
pub open spec fn spec_span_of(e: Expr) -> Span {
    match e {
        Expr::If { span, .. } => span,
        Expr::IfLet { span, .. } => span,
        Expr::Block { span, .. } => span,
        Expr::And { span, .. } => span,
        Expr::Other { span, .. } => span,
    }
}

/// The precedence class of an expression: `if`/`if let` are statement-like
/// and always need parentheses under `&&`; blocks never do; `&&` itself
/// sits at `AND_PREC`; anything else carries the class the host assigned.
pub open spec fn spec_prec_of(e: Expr) -> u32 {
    match e {
        Expr::If { .. } => 0,
        Expr::IfLet { .. } => 0,
        Expr::Block { .. } => BLOCK_PREC,
        Expr::And { .. } => AND_PREC,
        Expr::Other { prec, .. } => prec,
    }
}

/// The expression a statement consists of, for the two statement forms
/// (`Expr`, `Semi`) the patterns accept in a single-statement block.
pub open spec fn stmt_expr(s: Stmt) -> Option<Expr> {
    match s {
        Stmt::Expr(e) => Some(e),
        Stmt::Semi(e) => Some(e),
        Stmt::Other(_) => None,
    }
}

pub fn expr_span(e: &Expr) -> (r: Span)
    ensures
        r == spec_span_of(*e),
{
    match e {
        Expr::If { span, .. } => *span,
        Expr::IfLet { span, .. } => *span,
        Expr::Block { span, .. } => *span,
        Expr::And { span, .. } => *span,
        Expr::Other { span, .. } => *span,
    }
}

pub fn expr_prec(e: &Expr) -> (r: u32)
    ensures
        r == spec_prec_of(*e),
{
    match e {
        Expr::If { .. } => 0,
        Expr::IfLet { .. } => 0,
        Expr::Block { .. } => BLOCK_PREC,
        Expr::And { .. } => AND_PREC,
        Expr::Other { prec, .. } => *prec,
    }
}

} // verus!
