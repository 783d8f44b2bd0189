//! The parsing context threaded through every call: an immutable value
//! copied and overridden for the duration of a sub-parse, never shared
//! mutable state.

use vstd::prelude::*;

verus! {

/// The configuration a single parse call runs under.
#[derive(Clone, Copy, Debug, PartialEq, Eq, Structural)]
pub struct Context {
    /// Whether the `in` keyword is a valid binary operator in the current
    /// position (false while a `for (...)` head is being parsed).
    pub include_in_expr: bool,
    /// Whether `await` is a valid unary operator here.
    pub in_async: bool,
    /// Whether the surrounding code is in a generator body.
    pub in_generator: bool,
    /// Strict-mode flag; it restricts which identifiers are valid
    /// assignment targets.
    pub strict: bool,
}

} // verus!
