//! The check itself: one candidate node in, zero or one diagnostic out.
//!
//! For each node the driver supplies, the matcher tries both patterns;
//! on a structural match the guards run, and only when every guard
//! passes does the synthesizer build a suggestion.  A structural
//! mismatch or a failed guard is silent: no diagnostic of any kind is
//! produced for that node.  Nodes that are themselves macro-generated
//! are excluded before the matcher ever runs.

use crate::ast::{expr_span, spec_span_of, Expr};
use crate::matcher::{
    lemma_patterns_exclusive, p1_caps, p1_matches, p2_caps, p2_matches, pat_if_else,
    pat_if_without_else,
};
use crate::span::{in_macro, same_context, spec_in_macro, spec_same_context};
use crate::suggest::{
    spec_collapsed_text, synthesize_collapse, synthesize_else_promotion, Applicability,
    Diagnostic, LintKind,
};
use crate::text::{
    block_starts_with_comment, spec_block_has_comment, spec_snippet_ok, spec_snippet_or,
};
use vstd::prelude::*;

verus! {

/// The collapsible-conditional check.  It holds no state: each call of
/// [`CollapsibleIf::check_expr`] is a pure function of the node and the
/// source text, so a driver may visit nodes in any order.
#[derive(Clone, Copy)]
pub struct CollapsibleIf;

/// When pattern 1 yields a diagnostic: the node is not macro-generated,
/// the shape matches, the outer body block (whose braces the rewrite
/// removes) does not start with a comment, and the outer `if` and the
/// nested `if` come from the same macro-expansion context.
pub open spec fn p1_fires(src: Seq<u8>, e: Expr) -> bool {
    &&& !spec_in_macro(spec_span_of(e))
    &&& p1_matches(e)
    &&& !spec_block_has_comment(src, p1_caps(e).body_span)
    &&& spec_same_context(spec_span_of(e), p1_caps(e).inner_span)
}

/// When pattern 2 yields a diagnostic: the node is not macro-generated,
/// the shape matches, the `else` block does not start with a comment,
/// and the nested conditional is not itself macro-generated.
pub open spec fn p2_fires(src: Seq<u8>, e: Expr) -> bool {
    &&& !spec_in_macro(spec_span_of(e))
    &&& p2_matches(e)
    &&& !spec_block_has_comment(src, p2_caps(e).block_inner_span)
    &&& !spec_in_macro(p2_caps(e).els_span)
}

/// Whether the check produces any diagnostic for this node.
pub open spec fn produces_diagnostic(src: Seq<u8>, e: Expr) -> bool {
    p1_fires(src, e) || p2_fires(src, e)
}

impl CollapsibleIf {
    /// The check's name.
    pub fn name(&self) -> (r: &'static str)
        ensures
            r@ == "CollapsibleIf"@,
    {
        "CollapsibleIf"
    }

    /// Checks one candidate node against both patterns, pattern 1
    /// first, and returns the diagnostic of the first that matches with
    /// all its guards passing — or nothing: a mismatch or a failed
    /// guard is silent by design.  `src` is the raw text of the source
    /// file the node's spans point into.
    pub fn check_expr(&self, src: &[u8], e: &Expr) -> (r: Option<Diagnostic>)
        ensures
            r is Some <==> produces_diagnostic(src@, *e),
            p1_fires(src@, *e) ==> (r matches Some(d) && d.span == spec_span_of(*e) && d.kind
                == LintKind::NestedIf && d.suggestion.span == spec_span_of(*e)
                && d.suggestion.text@ == spec_collapsed_text(src@, p1_caps(*e))
                && d.suggestion.applicability == Applicability::MachineApplicable),
            p2_fires(src@, *e) ==> (r matches Some(d) && d.span == p2_caps(*e).block_span
                && d.kind == LintKind::ElseNestedIf && d.suggestion.span == p2_caps(
                *e,
            ).block_span && d.suggestion.text@ == spec_snippet_or(src@, p2_caps(*e).els_span)
                && d.suggestion.applicability == (if spec_snippet_ok(
                src@,
                p2_caps(*e).els_span,
            ) {
                Applicability::MachineApplicable
            } else {
                Applicability::MaybeIncorrect
            })),
    {
        let span = expr_span(e);
        if in_macro(&span) {
            return None;
        }
        if let Some(m) = pat_if_without_else(e) {
            if !block_starts_with_comment(src, m.body_span) && same_context(&span, &m.inner_span) {
                let sugg = synthesize_collapse(src, &m, span);
                proof {
                    lemma_patterns_exclusive(*e);
                }
                return Some(Diagnostic { span, kind: LintKind::NestedIf, suggestion: sugg });
            }
        }
        if let Some(m) = pat_if_else(e) {
            if !block_starts_with_comment(src, m.block_inner_span) && !in_macro(&m.els_span) {
                let sugg = synthesize_else_promotion(src, &m);
                proof {
                    lemma_patterns_exclusive(*e);
                }
                return Some(
                    Diagnostic { span: m.block_span, kind: LintKind::ElseNestedIf, suggestion: sugg },
                );
            }
        }
        None
    }
}

} // verus!
