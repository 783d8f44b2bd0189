//! The tokens the parser consumes and the classification of a token as a
//! candidate binary operator.

use vstd::prelude::*;
use crate::ast::{BinaryOp, Span};
use crate::context::Context;

verus! {

/// The kind of a token handed over by the lexing collaborator.
#[derive(Debug, PartialEq, Eq)]
pub enum TokenKind {
    /// A numeric literal.
    Num(u64),
    /// A string literal (its cooked value).
    Str(String),
    /// An identifier.
    Ident(String),
    /// A punctuator binary operator. The keyword operators `in` and
    /// `instanceof` never take this shape; they arrive as `KwIn` and
    /// `KwInstanceOf`.
    Op(BinaryOp),
    PlusPlus,
    MinusMinus,
    Tilde,
    Bang,
    KwIn,
    KwInstanceOf,
    KwDelete,
    KwVoid,
    KwTypeOf,
    KwAwait,
    KwImport,
    KwExport,
    KwDefault,
    KwFrom,
    KwAs,
    LParen,
    RParen,
    LBrace,
    RBrace,
    Comma,
    Semi,
    Dot,
    /// The `=>` punctuator.
    Arrow,
}

/// One token: its kind, its source extent, and whether a line terminator
/// stood between the previous token and this one (needed for the
/// automatic-semicolon-insertion restriction on postfix operators).
#[derive(Debug, PartialEq, Eq)]
pub struct Token {
    pub kind: TokenKind,
    pub span: Span,
    pub had_line_break: bool,
}

/// Classifies a token as a candidate binary operator under the given
/// context, or reports that it is none. `in` qualifies only while
/// `ctx.include_in_expr` holds; a punctuator operator token never carries
/// the keyword operators. This is a pure lookup with no side effects.
pub open spec fn bin_op_of_spec(kind: TokenKind, ctx: Context) -> Option<BinaryOp> {
    match kind {
        TokenKind::KwIn => if ctx.include_in_expr {
            Some(BinaryOp::In)
        } else {
            None
        },
        TokenKind::KwInstanceOf => Some(BinaryOp::InstanceOf),
        TokenKind::Op(op) => if op is In || op is InstanceOf {
            None
        } else {
            Some(op)
        },
        _ => None,
    }
}

/// Executable operator classification mirroring `bin_op_of_spec`.
pub fn bin_op_of(kind: &TokenKind, ctx: Context) -> (r: Option<BinaryOp>)
    ensures
        r == bin_op_of_spec(*kind, ctx),
{
    match kind {
        TokenKind::KwIn => if ctx.include_in_expr {
            Some(BinaryOp::In)
        } else {
            None
        },
        TokenKind::KwInstanceOf => Some(BinaryOp::InstanceOf),
        TokenKind::Op(op) => if matches!(op, BinaryOp::In | BinaryOp::InstanceOf) {
            None
        } else {
            Some(*op)
        },
        _ => None,
    }
}

} // verus!
