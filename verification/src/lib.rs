//! A structural pattern matcher and rewrite-suggestion engine for
//! redundantly nested conditionals.
//!
//! The library inspects a model of a host language's expression tree and
//! looks for two shapes: an `if` without an `else` whose body is a single
//! nested `if` (collapsible into one `if` with `&&`-combined conditions),
//! and an `if`/`if let` whose `else` branch is a block holding a single
//! nested conditional (collapsible into an `else if` chain).  On a match
//! it checks two guards — that the nested conditional shares the outer
//! node's macro-expansion context, and that the region to be elided does
//! not begin with a comment — and then synthesizes the replacement source
//! text together with a confidence level for automatic application.

pub mod ast;
pub mod laws;
pub mod lint;
pub mod matcher;
pub mod span;
pub mod suggest;
pub mod text;

pub use lint::CollapsibleIf;
