//! Source text access and the comment-preservation guard.
//!
//! The host owns the source; the analysis receives it as the raw UTF-8
//! bytes of the file a candidate node came from.  A snippet is the
//! verbatim byte range a span names.  When a span does not lie inside
//! the given text, the snippet falls back to the placeholder `..` — the
//! caller degrades the suggestion's applicability instead of aborting.

use crate::span::Span;
use vstd::prelude::*;

verus! {

/// Whether `s` names a range that lies inside the source text, so that
/// exact snippet extraction is possible.
pub open spec fn spec_snippet_ok(src: Seq<u8>, s: Span) -> bool {
    s.lo <= s.hi && s.hi <= src.len()
}

/// The verbatim source bytes of an in-range span.
pub open spec fn spec_snippet(src: Seq<u8>, s: Span) -> Seq<u8>
    recommends
        spec_snippet_ok(src, s),
{
    src.subrange(s.lo as int, s.hi as int)
}

/// The placeholder a snippet falls back to when exact text cannot be
/// recovered.
pub open spec fn placeholder() -> Seq<u8> {
    seq![46u8, 46u8]
}

/// The snippet of a span, or the placeholder when the span is out of
/// range.
pub open spec fn spec_snippet_or(src: Seq<u8>, s: Span) -> Seq<u8> {
    if spec_snippet_ok(src, s) {
        spec_snippet(src, s)
    } else {
        placeholder()
    }
}

/// Extracts the snippet of `s`, or the placeholder `..` when the span is
/// out of range.  The second component says whether extraction was
/// exact.
pub fn snippet_with_fallback(src: &[u8], s: Span) -> (r: (Vec<u8>, bool))
    ensures
        r.1 == spec_snippet_ok(src@, s),
        r.0@ == spec_snippet_or(src@, s),
{
    if s.lo <= s.hi && s.hi <= src.len() {
        let piece: &[u8] = &src[s.lo..s.hi];
        let mut v: Vec<u8> = Vec::new();
        v.extend_from_slice(piece);
        proof {
            assert(v@ =~= spec_snippet_or(src@, s));
        }
        (v, true)
    } else {
        let mut v: Vec<u8> = Vec::new();
        v.push(46);
        v.push(46);
        proof {
            assert(v@ =~= placeholder());
        }
        (v, false)
    }
}

/// The bytes stripped from the front of a block's text before the
/// comment test: ASCII whitespace and the opening brace.  Comment
/// markers are ASCII, so stripping is done on bytes; a non-ASCII
/// character stops the scan like any other code.
pub open spec fn is_skippable(b: u8) -> bool {
    b == 32 || b == 9 || b == 10 || b == 11 || b == 12 || b == 13 || b == 123
}

/// `t` with every leading skippable byte removed.
pub open spec fn trim_start(t: Seq<u8>) -> Seq<u8>
    decreases t.len(),
{
    if t.len() > 0 && is_skippable(t[0]) {
        trim_start(t.skip(1))
    } else {
        t
    }
}

/// Whether `t`, after stripping leading whitespace and opening braces,
/// begins with a line-comment marker `//` or a block-comment marker
/// `/*`.
pub open spec fn starts_with_comment(t: Seq<u8>) -> bool {
    let r = trim_start(t);
    r.len() >= 2 && r[0] == 47 && (r[1] == 47 || r[1] == 42)
}

/// The comment guard on a block's region: the block's verbatim text
/// begins with a comment once whitespace and braces are stripped.  A
/// span whose text cannot be recovered yields the placeholder, which
/// carries no comment.
pub open spec fn spec_block_has_comment(src: Seq<u8>, s: Span) -> bool {
    starts_with_comment(spec_snippet_or(src, s))
}

/// Trimming a sequence whose first `k` bytes are skippable and whose
/// byte at `k` (if any) is not skips exactly those `k` bytes.
proof fn lemma_trim_skip(t: Seq<u8>, k: int)
    requires
        0 <= k <= t.len(),
        forall|j: int| 0 <= j < k ==> is_skippable(t[j]),
        k == t.len() || !is_skippable(t[k]),
    ensures
        trim_start(t) == t.skip(k),
    decreases k,
{
    if k == 0 {
        if t.len() == 0 || !is_skippable(t[0]) {
            assert(trim_start(t) == t);
            assert(t.skip(0) =~= t);
        }
    } else {
        assert(is_skippable(t[0]));
        lemma_trim_skip(t.skip(1), k - 1);
        assert(t.skip(1).skip(k - 1) =~= t.skip(k));
    }
}

fn skippable_byte(b: u8) -> (r: bool)
    ensures
        r == is_skippable(b),
{
    b == 32 || b == 9 || b == 10 || b == 11 || b == 12 || b == 13 || b == 123
}

/// Whether the region `s` names in `src` starts with a comment after
/// stripping leading whitespace and opening braces.  An out-of-range
/// span yields the placeholder text, which starts with no comment.
pub fn block_starts_with_comment(src: &[u8], s: Span) -> (r: bool)
    ensures
        r == spec_block_has_comment(src@, s),
{
    if !(s.lo <= s.hi && s.hi <= src.len()) {
        proof {
            reveal_with_fuel(trim_start, 3);
        }
        return false;
    }
    let ghost sub: Seq<u8> = spec_snippet(src@, s);
    let mut i: usize = s.lo;
    while i < s.hi && skippable_byte(src[i])
        invariant
            s.lo <= i <= s.hi,
            s.hi <= src@.len(),
            sub == spec_snippet(src@, s),
            forall|j: int| 0 <= j < i - s.lo ==> is_skippable(sub[j]),
        decreases s.hi - i,
    {
        i += 1;
    }
    proof {
        lemma_trim_skip(sub, i - s.lo);
    }
    if i < s.hi && src[i] == 47 {
        if i + 1 < s.hi {
            let b2: u8 = src[i + 1];
            b2 == 47 || b2 == 42
        } else {
            false
        }
    } else {
        false
    }
}

} // verus!
