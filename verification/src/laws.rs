//! The properties the engine promises, stated and proved over the
//! tree model.
//!
//! The synthesizer emits text, and parsing text back into a tree is the
//! host's business; these laws therefore speak of the tree that the
//! pattern-1 replacement text denotes ([`collapsed_tree`]) and the tree
//! the pattern-2 replacement leaves at the node ([`promoted_tree`]),
//! and relate them to the matched input.

use crate::ast::{spec_span_of, Expr, Stmt};
use crate::lint::produces_diagnostic;
use crate::matcher::{
    els_of, lemma_patterns_exclusive, p1_body, p1_caps, p1_check, p1_check_inner, p1_content,
    p1_inner, p1_matches, p2_caps, p2_else, p2_matches, p2_via_if, p2_via_iflet,
};
use crate::span::{spec_in_macro, spec_same_context, Span};
use crate::text::spec_block_has_comment;
use vstd::prelude::*;

verus! {

/// The truth value of a condition under a valuation `v`, which assigns
/// a truth value to every atomic condition, identified by its span.
/// `&&` evaluates by short-circuit conjunction; every other expression
/// shape is atomic here.
pub open spec fn eval_cond(e: Expr, v: spec_fn(Span) -> bool) -> bool
    decreases e,
{
    match e {
        Expr::And { lhs, rhs, .. } => eval_cond(*lhs, v) && eval_cond(*rhs, v),
        _ => v(spec_span_of(e)),
    }
}

/// The tree a pattern-1 replacement stands for: a single `if` on the
/// `&&`-conjunction of the two captured conditions, whose body is the
/// nested body block kept verbatim, with no `else`.
pub open spec fn collapsed_tree(e: Expr) -> Expr
    recommends
        p1_matches(e),
{
    Expr::If {
        span: spec_span_of(e),
        cond: Box::new(
            Expr::And {
                span: spec_span_of(e),
                lhs: Box::new(p1_check(e)),
                rhs: Box::new(p1_check_inner(e)),
            },
        ),
        body: p1_content(e),
        els: None,
    }
}

/// The tree a pattern-2 replacement leaves at the node: the same
/// conditional, its `else` branch now the nested conditional itself
/// (an `else if`/`else if let` chain) instead of a block around it.
pub open spec fn promoted_tree(e: Expr) -> Expr
    recommends
        p2_matches(e),
{
    match e {
        Expr::If { span, cond, body, .. } => Expr::If {
            span,
            cond,
            body,
            els: Some(Box::new(p2_else(e))),
        },
        Expr::IfLet { span, body, .. } => Expr::IfLet {
            span,
            body,
            els: Some(Box::new(p2_else(e))),
        },
        _ => arbitrary(),
    }
}

/// How many levels of collapsible nesting sit at a node: the length of
/// the chain of `if`s each of which is the single, `else`-less body of
/// the one before it.
pub open spec fn nested_if_depth(e: Expr) -> nat
    decreases e,
    via nested_if_depth_decreases
{
    if p1_matches(e) {
        1nat + nested_if_depth(p1_inner(e))
    } else if e matches Expr::If { .. } {
        1nat
    } else {
        0nat
    }
}

#[via_fn]
proof fn nested_if_depth_decreases(e: Expr) {
    broadcast use vstd::seq::axiom_seq_index_decreases;

    if p1_matches(e) {
        match e {
            Expr::If { body, .. } => {
                assert(decreases_to!(e => body));
                assert(decreases_to!(body => body.stmts));
                assert(decreases_to!(body.stmts => body.stmts@));
                assert(decreases_to!(body.stmts@ => body.stmts@[0]));
                match body.stmts@[0] {
                    Stmt::Expr(x) => {
                        assert(decreases_to!(body.stmts@[0] => x));
                    },
                    Stmt::Semi(x) => {
                        assert(decreases_to!(body.stmts@[0] => x));
                    },
                    Stmt::Other(_) => {
                    },
                }
                assert(decreases_to!(e => p1_inner(e)));
            },
            _ => {
            },
        }
    }
}

/// Soundness of the collapse, pattern 1: the collapsed `if` guards the
/// very block the nested `if` guarded, it is entered under exactly the
/// valuations that pass both original conditions — short-circuit
/// evaluation of `check && check_inner` — and, like both original
/// `if`s, it has no `else` branch, so no other code is reachable from
/// it on either side.
pub proof fn lemma_collapse_sound(e: Expr, v: spec_fn(Span) -> bool)
    requires
        p1_matches(e),
    ensures
        p1_body(collapsed_tree(e)) == p1_content(e),
        eval_cond(p1_check(collapsed_tree(e)), v) == (eval_cond(p1_check(e), v) && eval_cond(
            p1_check_inner(e),
            v,
        )),
        els_of(collapsed_tree(e)) is None,
        els_of(e) is None,
        els_of(p1_inner(e)) is None,
{
}

/// Soundness of the collapse, nesting part: the collapsed tree has
/// exactly one level of conditional nesting fewer than the matched
/// node.  Each application strictly reduces the depth, so repeated
/// collapsing terminates.
pub proof fn lemma_collapse_reduces_nesting(e: Expr)
    requires
        p1_matches(e),
    ensures
        nested_if_depth(collapsed_tree(e)) + 1 == nested_if_depth(e),
{
    let ct = collapsed_tree(e);
    let inner = p1_inner(e);
    assert(p1_body(ct) == p1_content(e));
    if p1_matches(inner) {
        assert(p1_matches(ct));
        assert(p1_inner(ct) == p1_inner(inner));
        assert(nested_if_depth(inner) == 1nat + nested_if_depth(p1_inner(inner)));
        assert(nested_if_depth(ct) == 1nat + nested_if_depth(p1_inner(ct)));
    } else {
        assert(!p1_matches(ct));
        assert(nested_if_depth(ct) == 1nat);
        assert(nested_if_depth(inner) == 1nat);
    }
}

/// Idempotence, pattern 1: when the nested body is not itself a
/// collapsible pair, the matcher never matches the replacement again.
/// (When it is, the replacement still matches — one level at a time is
/// collapsed, and [`lemma_collapse_reduces_nesting`] rules out an
/// infinite chain from a single application.)
pub proof fn lemma_collapse_idempotent(e: Expr)
    requires
        p1_matches(e),
        !p1_matches(p1_inner(e)),
    ensures
        !p1_matches(collapsed_tree(e)),
{
}

/// Idempotence, pattern 2: the replacement turns `else { if .. }` into
/// `else if ..`, whose `else` branch is no longer a block — so the
/// matcher never matches the same node again, on any input.
pub proof fn lemma_promotion_idempotent(e: Expr)
    requires
        p2_matches(e),
    ensures
        !p2_matches(promoted_tree(e)),
{
}

/// Hygiene rejection: a pattern-1 match whose nested `if` comes from a
/// different macro-expansion context than the outer `if` produces no
/// diagnostic of any kind.
pub proof fn lemma_hygiene_rejection(src: Seq<u8>, e: Expr)
    requires
        p1_matches(e),
        !spec_same_context(spec_span_of(e), p1_caps(e).inner_span),
    ensures
        !produces_diagnostic(src, e),
{
    lemma_patterns_exclusive(e);
}

/// Macro exclusion: a node whose own span is macro-generated is never
/// reported, whatever its shape.
pub proof fn lemma_macro_node_excluded(src: Seq<u8>, e: Expr)
    requires
        spec_in_macro(spec_span_of(e)),
    ensures
        !produces_diagnostic(src, e),
{
}

/// Comment suppression, pattern 1: when the region to be elided starts
/// with a comment, no diagnostic is emitted for the node at all, even
/// though the structural match succeeded.
pub proof fn lemma_comment_suppression(src: Seq<u8>, e: Expr)
    requires
        p1_matches(e),
        spec_block_has_comment(src, p1_caps(e).body_span),
    ensures
        !produces_diagnostic(src, e),
{
    lemma_patterns_exclusive(e);
}

/// Comment suppression, pattern 2: the same, for a comment leading the
/// `else` block.
pub proof fn lemma_comment_suppression_else(src: Seq<u8>, e: Expr)
    requires
        p2_matches(e),
        spec_block_has_comment(src, p2_caps(e).block_inner_span),
    ensures
        !produces_diagnostic(src, e),
{
    lemma_patterns_exclusive(e);
}

/// Ordered alternation, pattern 2: matching is the sequential trial of
/// the `If` alternative and then the `IfLet` alternative, and the first
/// that applies decides the match.  On this tree model no input is
/// ambiguous — the two alternatives are disjoint — so the outcome is
/// deterministic and the declared order is what makes it so.
pub proof fn lemma_ordered_alternation(e: Expr)
    ensures
        !(p2_via_if(e) && p2_via_iflet(e)),
        p2_matches(e) == (if p2_via_if(e) {
            true
        } else {
            p2_via_iflet(e)
        }),
{
}

} // verus!
