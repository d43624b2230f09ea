//! Source ranges and macro-expansion identity.

use vstd::prelude::*;

verus! {

/// A source byte range together with the identity of the macro expansion
/// that produced it.  `ctxt == 0` means the code stands in the source file
/// itself; any other value names one macro expansion.  Two spans are
/// hygienically compatible exactly when their `ctxt` fields are equal.
#[derive(Clone, Copy, PartialEq, Eq, Structural, Debug)]
pub struct Span {
    pub lo: usize,
    pub hi: usize,
    pub ctxt: u64,
}

/// Whether a span was produced by a macro expansion.
pub open spec fn spec_in_macro(s: Span) -> bool {
    s.ctxt != 0
}

/// Whether two spans belong to the same macro-expansion context.
pub open spec fn spec_same_context(a: Span, b: Span) -> bool {
    a.ctxt == b.ctxt
}

pub fn in_macro(s: &Span) -> (r: bool)
    ensures
        r == spec_in_macro(*s),
{
    s.ctxt != 0
}

pub fn same_context(a: &Span, b: &Span) -> (r: bool)
    ensures
        r == spec_same_context(*a, *b),
{
    a.ctxt == b.ctxt
}

} // verus!
