//! The abstract syntax tree produced by the expression and module parsers,
//! together with the operator model: precedence, associativity, and the
//! classification of valid simple assignment targets.

use vstd::prelude::*;
use vstd::string::StringExecFns;

verus! {

/// A half-open `[lo, hi)` byte range over the source text.
#[derive(Clone, Copy, Debug, PartialEq, Eq, Structural)]
pub struct Span {
    pub lo: usize,
    pub hi: usize,
}

/// A binary operator. `In` and `InstanceOf` reach the parser as keyword
/// tokens; the rest arrive as punctuator tokens.
#[derive(Clone, Copy, Debug, PartialEq, Eq, Structural)]
pub enum BinaryOp {
    NullishCoalescing,
    LogicalOr,
    LogicalAnd,
    BitOr,
    BitXor,
    BitAnd,
    In,
    InstanceOf,
    LShift,
    RShift,
    ZeroFillRShift,
    Add,
    Sub,
    Mul,
    Div,
    Mod,
    Exp,
}

/// A unary operator (always prefix).
#[derive(Clone, Copy, Debug, PartialEq, Eq, Structural)]
pub enum UnaryOp {
    Delete,
    Void,
    TypeOf,
    Plus,
    Minus,
    Tilde,
    Bang,
}

/// An update operator; whether it is prefix or postfix is recorded on the
/// `Update` node itself.
#[derive(Clone, Copy, Debug, PartialEq, Eq, Structural)]
pub enum UpdateOp {
    PlusPlus,
    MinusMinus,
}

impl BinaryOp {
    /// The precedence rank of the operator; a higher rank binds tighter.
    /// Every binary operator ranks above 0, the threshold the entry point
    /// starts climbing from.
    pub open spec fn prec_spec(self) -> u8 {
        match self {
            BinaryOp::NullishCoalescing => 1,
            BinaryOp::LogicalOr => 2,
            BinaryOp::LogicalAnd => 3,
            BinaryOp::BitOr => 4,
            BinaryOp::BitXor => 5,
            BinaryOp::BitAnd => 6,
            BinaryOp::In => 7,
            BinaryOp::InstanceOf => 7,
            BinaryOp::LShift => 8,
            BinaryOp::RShift => 8,
            BinaryOp::ZeroFillRShift => 8,
            BinaryOp::Add => 9,
            BinaryOp::Sub => 9,
            BinaryOp::Mul => 10,
            BinaryOp::Div => 10,
            BinaryOp::Mod => 10,
            BinaryOp::Exp => 11,
        }
    }

    /// Executable precedence lookup.
    pub fn precedence(self) -> (p: u8)
        ensures
            p == self.prec_spec(),
    {
        match self {
            BinaryOp::NullishCoalescing => 1,
            BinaryOp::LogicalOr => 2,
            BinaryOp::LogicalAnd => 3,
            BinaryOp::BitOr => 4,
            BinaryOp::BitXor => 5,
            BinaryOp::BitAnd => 6,
            BinaryOp::In => 7,
            BinaryOp::InstanceOf => 7,
            BinaryOp::LShift => 8,
            BinaryOp::RShift => 8,
            BinaryOp::ZeroFillRShift => 8,
            BinaryOp::Add => 9,
            BinaryOp::Sub => 9,
            BinaryOp::Mul => 10,
            BinaryOp::Div => 10,
            BinaryOp::Mod => 10,
            BinaryOp::Exp => 11,
        }
    }

    /// Every operator is left-associative except exponentiation.
    pub open spec fn right_assoc_spec(self) -> bool {
        self is Exp
    }

    /// The threshold the right operand of `self` is climbed with: the
    /// operator's own precedence for a left-associative operator, one less
    /// for the right-associative `**`, so that a chained `a ** b ** c`
    /// nests on the right while `a - b - c` nests on the left.
    pub open spec fn climb_min_spec(self) -> u8 {
        if self.right_assoc_spec() {
            (self.prec_spec() - 1) as u8
        } else {
            self.prec_spec()
        }
    }

    /// Executable counterpart of `climb_min_spec`.
    pub fn climb_min(self) -> (m: u8)
        ensures
            m == self.climb_min_spec(),
    {
        let p = self.precedence();
        if matches!(self, BinaryOp::Exp) {
            p - 1
        } else {
            p
        }
    }
}

/// An identifier with its source extent.
#[derive(Debug, PartialEq, Eq)]
pub struct Ident {
    pub span: Span,
    pub sym: String,
}

/// The shape of an expression node. `Num`, `Str`, `Ident`, `Member`,
/// `Paren` and `Arrow` stand for the forms the left-hand-side collaborator
/// produces; the precedence engine treats them opaquely. `Unary`, `Update`,
/// `Bin` and `Await` are the forms this layer constructs itself.
#[derive(Debug, PartialEq, Eq)]
pub enum ExprKind {
    Num(u64),
    Str(String),
    Ident(String),
    Member { obj: Box<Expr>, prop: Box<Expr> },
    Paren(Box<Expr>),
    Arrow { param: Box<Expr>, body: Box<Expr> },
    Unary { op: UnaryOp, arg: Box<Expr> },
    Update { op: UpdateOp, prefix: bool, arg: Box<Expr> },
    Bin { op: BinaryOp, left: Box<Expr>, right: Box<Expr> },
    Await { arg: Box<Expr> },
}

/// An expression node; `span` covers the node's whole source extent.
#[derive(Debug, PartialEq, Eq)]
pub struct Expr {
    pub span: Span,
    pub kind: ExprKind,
}

/// Whether an expression is a valid simple assignment target: a reference
/// to a storage location, eligible as the operand of `++`/`--`. Identifiers
/// qualify, except `eval` and `arguments` in strict mode; member accesses
/// qualify; a parenthesized target qualifies; literals, calls and computed
/// expressions do not.
pub open spec fn is_simple_target_spec(e: Expr, strict: bool) -> bool
    decreases e,
{
    match e.kind {
        ExprKind::Ident(s) => !(strict && (s@ == "eval"@ || s@ == "arguments"@)),
        ExprKind::Member { .. } => true,
        ExprKind::Paren(inner) => is_simple_target_spec(*inner, strict),
        _ => false,
    }
}

/// Executable check mirroring `is_simple_target_spec`.
pub fn is_simple_target(e: &Expr, strict: bool) -> (r: bool)
    ensures
        r == is_simple_target_spec(*e, strict),
    decreases *e,
{
    match &e.kind {
        ExprKind::Ident(s) => {
            if strict {
                let eval_word: String = String::from_str("eval");
                let args_word: String = String::from_str("arguments");
                !(s.eq(&eval_word) || s.eq(&args_word))
            } else {
                true
            }
        },
        ExprKind::Member { .. } => true,
        ExprKind::Paren(inner) => is_simple_target(inner, strict),
        _ => false,
    }
}

} // verus!
