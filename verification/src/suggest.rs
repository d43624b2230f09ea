//! The suggestion synthesizer.
//!
//! Given the captures of a successful match (after the guards passed),
//! this module builds the replacement source text and the confidence
//! level for automatic application.  For pattern 1 the two conditions
//! are conjoined with `&&`, each side parenthesized only when its own
//! precedence is lower than `&&`'s, and the nested body block is kept
//! verbatim.  For pattern 2 the replacement is the verbatim text of the
//! nested conditional; when that text cannot be recovered exactly, the
//! suggestion degrades to a placeholder instead of being dropped.

use crate::ast::AND_PREC;
use crate::matcher::{ElseNestedMatch, IfNoElseMatch};
use crate::span::Span;
use crate::text::{snippet_with_fallback, spec_snippet_ok, spec_snippet_or};
use vstd::prelude::*;

verus! {

/// How safely a suggestion can be applied without human review.
#[derive(Clone, Copy, PartialEq, Eq, Structural, Debug)]
pub enum Applicability {
    MachineApplicable,
    MaybeIncorrect,
    Unspecified,
}

/// Which of the two collapsible shapes a diagnostic reports.
#[derive(Clone, Copy, PartialEq, Eq, Structural, Debug)]
pub enum LintKind {
    NestedIf,
    ElseNestedIf,
}

impl LintKind {
    /// The message the diagnostic sink renders for this shape.
    pub fn message(&self) -> (r: &'static str)
        ensures
            *self is NestedIf ==> r@ == "this if statement can be collapsed"@,
            *self is ElseNestedIf ==> r@ == "this `else { if .. }` block can be collapsed"@,
    {
        match self {
            LintKind::NestedIf => "this if statement can be collapsed",
            LintKind::ElseNestedIf => "this `else { if .. }` block can be collapsed",
        }
    }
}

/// A proposed rewrite: the span to replace, the replacement text as
/// UTF-8 bytes, and the confidence for automatic application.
#[derive(Debug)]
pub struct Suggestion {
    pub span: Span,
    pub text: Vec<u8>,
    pub applicability: Applicability,
}

/// What the driver forwards to the diagnostic sink: the primary span,
/// the message kind, and the suggestion.
#[derive(Debug)]
pub struct Diagnostic {
    pub span: Span,
    pub kind: LintKind,
    pub suggestion: Suggestion,
}

/// The text of a condition as it stands beside `&&`: its verbatim
/// snippet, wrapped in parentheses exactly when its precedence is lower
/// than `&&`'s.
pub open spec fn spec_cond_text(src: Seq<u8>, s: Span, prec: u32) -> Seq<u8> {
    let t = spec_snippet_or(src, s);
    if prec < AND_PREC {
        seq![40u8] + t + seq![41u8]
    } else {
        t
    }
}

/// The replacement text for pattern 1: `if `, the conjoined conditions,
/// a space, and the nested body block verbatim.
pub open spec fn spec_collapsed_text(src: Seq<u8>, m: IfNoElseMatch) -> Seq<u8> {
    seq![105u8, 102u8, 32u8] + spec_cond_text(src, m.check_span, m.check_prec) + seq![
        32u8,
        38u8,
        38u8,
        32u8,
    ] + spec_cond_text(src, m.check_inner_span, m.check_inner_prec) + seq![32u8]
        + spec_snippet_or(src, m.content_span)
}

fn push_cond(out: &mut Vec<u8>, src: &[u8], s: Span, prec: u32)
    ensures
        final(out)@ == old(out)@ + spec_cond_text(src@, s, prec),
{
    let (t, _exact) = snippet_with_fallback(src, s);
    if prec < AND_PREC {
        out.push(40);
        out.extend_from_slice(t.as_slice());
        out.push(41);
    } else {
        out.extend_from_slice(t.as_slice());
    }
    proof {
        assert(out@ =~= old(out)@ + spec_cond_text(src@, s, prec));
    }
}

/// Synthesizes the pattern-1 suggestion from its captures: the whole
/// outer `if` is replaced by one `if` on the `&&`-conjoined conditions
/// with the nested body kept verbatim.  Collapsing is judged safe for
/// automatic application.
pub fn synthesize_collapse(src: &[u8], m: &IfNoElseMatch, target: Span) -> (r: Suggestion)
    ensures
        r.span == target,
        r.text@ == spec_collapsed_text(src@, *m),
        r.applicability == Applicability::MachineApplicable,
{
    let mut out: Vec<u8> = Vec::new();
    out.push(105);
    out.push(102);
    out.push(32);
    push_cond(&mut out, src, m.check_span, m.check_prec);
    out.push(32);
    out.push(38);
    out.push(38);
    out.push(32);
    push_cond(&mut out, src, m.check_inner_span, m.check_inner_prec);
    out.push(32);
    let (body, _exact) = snippet_with_fallback(src, m.content_span);
    out.extend_from_slice(body.as_slice());
    proof {
        assert(out@ =~= spec_collapsed_text(src@, *m));
    }
    Suggestion { span: target, text: out, applicability: Applicability::MachineApplicable }
}

/// Synthesizes the pattern-2 suggestion from its captures: the whole
/// `else` block is replaced by the verbatim text of the nested
/// conditional, which turns `else { if .. }` into `else if ..`.  When
/// the text cannot be recovered exactly the placeholder stands in and
/// the suggestion is no longer safe to apply automatically.
pub fn synthesize_else_promotion(src: &[u8], m: &ElseNestedMatch) -> (r: Suggestion)
    ensures
        r.span == m.block_span,
        r.text@ == spec_snippet_or(src@, m.els_span),
        r.applicability == (if spec_snippet_ok(src@, m.els_span) {
            Applicability::MachineApplicable
        } else {
            Applicability::MaybeIncorrect
        }),
{
    let (t, exact) = snippet_with_fallback(src, m.els_span);
    let applicability = if exact {
        Applicability::MachineApplicable
    } else {
        Applicability::MaybeIncorrect
    };
    Suggestion { span: m.block_span, text: t, applicability }
}

} // verus!
