//! Structured syntax errors. Every error is fatal to the current parse
//! attempt and propagates to the top-level caller unchanged; nothing in
//! this library recovers from one.

use vstd::prelude::*;
use crate::ast::Span;

verus! {

/// The closed set of syntax errors this layer reports, each tied to the
/// source span it was detected at.
#[derive(Clone, Copy, Debug, PartialEq, Eq, Structural)]
pub enum ParseError {
    /// A prefix or postfix update operator was applied to an operand that
    /// is not a simple reference; `span` is the operand's extent.
    InvalidAssignmentTarget { span: Span },
    /// `**` was applied with an unparenthesized unary expression as its
    /// left operand; `left_span` is that operand's extent.
    AmbiguousExponentiation { left_span: Span },
    /// `await *` was encountered; that syntax does not exist.
    AwaitGeneratorDelegation { span: Span },
    /// A required token is absent or an operand is malformed.
    UnexpectedToken { span: Span },
    /// The token stream ended where a token was required.
    UnexpectedEnd,
    /// An `import` or `export` declaration appeared below the top level.
    NonTopLevelImportExport { span: Span },
}

} // verus!
