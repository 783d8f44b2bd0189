//! The definitional interpreter for the expression grammar: a family of
//! specification functions that say, for a token sequence, a context and a
//! start position, exactly which tree a parse yields, where it stops, or
//! which error it reports. The executable parser's contracts equate its
//! behaviour with these functions.

use vstd::prelude::*;
use crate::ast::{BinaryOp, Expr, ExprKind, Span, UnaryOp, UpdateOp, is_simple_target_spec};
use crate::context::Context;
use crate::error::ParseError;
use crate::token::{Token, TokenKind, bin_op_of_spec};

verus! {

/// The outcome of one grammar production: the parsed value together with
/// the position of the first token it did not consume, or the error that
/// aborted the parse.
pub enum Parse<T> {
    Done { v: T, end: int },
    Fail { err: ParseError },
}

/// The expression an operand token stands for on its own.
pub open spec fn atom_expr(t: Token) -> Expr {
    match t.kind {
        TokenKind::Num(n) => Expr { span: t.span, kind: ExprKind::Num(n) },
        TokenKind::Str(s) => Expr { span: t.span, kind: ExprKind::Str(s) },
        TokenKind::Ident(s) => Expr { span: t.span, kind: ExprKind::Ident(s) },
        _ => Expr { span: t.span, kind: ExprKind::Num(0) },
    }
}

/// Whether a token is an operand on its own: a literal or an identifier.
pub open spec fn is_operand_token(kind: TokenKind) -> bool {
    kind is Num || kind is Str || kind is Ident
}

/// MemberExpression tails: folds a chain of `.name` accesses onto `obj`,
/// which covers the tokens up to `pos`.
pub open spec fn parse_member_spec(toks: Seq<Token>, obj: Expr, pos: int) -> Parse<Expr>
    decreases toks.len() - pos, 0int,
{
    if 0 <= pos && pos < toks.len() && toks[pos].kind is Dot {
        if pos + 1 < toks.len() {
            match toks[pos + 1].kind {
                TokenKind::Ident(s) => {
                    let prop = Expr { span: toks[pos + 1].span, kind: ExprKind::Ident(s) };
                    let node = Expr {
                        span: Span { lo: obj.span.lo, hi: toks[pos + 1].span.hi },
                        kind: ExprKind::Member { obj: Box::new(obj), prop: Box::new(prop) },
                    };
                    parse_member_spec(toks, node, pos + 2)
                },
                _ => Parse::Fail { err: ParseError::UnexpectedToken { span: toks[pos + 1].span } },
            }
        } else {
            Parse::Fail { err: ParseError::UnexpectedEnd }
        }
    } else {
        Parse::Done { v: obj, end: pos }
    }
}

/// LeftHandSideExpression, the collaborator production below this core:
/// literals, identifiers, `.name` member chains, parenthesized expressions,
/// and the arrow form a parenthesized head turns into when `=>` follows.
pub open spec fn parse_lhs_spec(toks: Seq<Token>, ctx: Context, pos: int) -> Parse<Expr>
    decreases toks.len() - pos, 0int,
{
    if pos < 0 || pos >= toks.len() {
        Parse::Fail { err: ParseError::UnexpectedEnd }
    } else if is_operand_token(toks[pos].kind) {
        parse_member_spec(toks, atom_expr(toks[pos]), pos + 1)
    } else if toks[pos].kind is LParen {
        match parse_bin_expr_spec(toks, ctx, pos + 1) {
            Parse::Done { v: inner, end } => {
                if end <= pos {
                    // progress guard: a successful sub-parse always moves
                    // forward (lemma_bin_expr_progress), so this arm is vacuous
                    Parse::Fail { err: ParseError::UnexpectedEnd }
                } else if end < toks.len() && toks[end].kind is RParen {
                    let paren = Expr {
                        span: Span { lo: toks[pos].span.lo, hi: toks[end].span.hi },
                        kind: ExprKind::Paren(Box::new(inner)),
                    };
                    if end + 1 < toks.len() && toks[end + 1].kind is Arrow {
                        match parse_bin_expr_spec(toks, ctx, end + 2) {
                            Parse::Done { v: body, end: bend } => Parse::Done {
                                v: Expr {
                                    span: Span { lo: toks[pos].span.lo, hi: body.span.hi },
                                    kind: ExprKind::Arrow {
                                        param: Box::new(paren),
                                        body: Box::new(body),
                                    },
                                },
                                end: bend,
                            },
                            f => f,
                        }
                    } else {
                        parse_member_spec(toks, paren, end + 1)
                    }
                } else if end < toks.len() {
                    Parse::Fail { err: ParseError::UnexpectedToken { span: toks[end].span } }
                } else {
                    Parse::Fail { err: ParseError::UnexpectedEnd }
                }
            },
            f => f,
        }
    } else {
        Parse::Fail { err: ParseError::UnexpectedToken { span: toks[pos].span } }
    }
}

/// AwaitExpression: `await` followed by a unary expression; `await *` is a
/// dedicated syntax error. Only meaningful at a position holding `await`
/// inside an async context.
pub open spec fn parse_await_spec(toks: Seq<Token>, ctx: Context, pos: int) -> Parse<Expr>
    decreases toks.len() - pos, 0int,
{
    if pos < 0 || pos >= toks.len() {
        Parse::Fail { err: ParseError::UnexpectedEnd }
    } else if pos + 1 < toks.len() && toks[pos + 1].kind == TokenKind::Op(BinaryOp::Mul) {
        Parse::Fail { err: ParseError::AwaitGeneratorDelegation { span: toks[pos + 1].span } }
    } else {
        match parse_unary_spec(toks, ctx, pos + 1) {
            Parse::Done { v: arg, end } => Parse::Done {
                v: Expr {
                    span: Span { lo: toks[pos].span.lo, hi: arg.span.hi },
                    kind: ExprKind::Await { arg: Box::new(arg) },
                },
                end,
            },
            f => f,
        }
    }
}

/// The unary operator a token stands for, if any.
pub open spec fn unary_op_of_spec(kind: TokenKind) -> Option<UnaryOp> {
    match kind {
        TokenKind::KwDelete => Some(UnaryOp::Delete),
        TokenKind::KwVoid => Some(UnaryOp::Void),
        TokenKind::KwTypeOf => Some(UnaryOp::TypeOf),
        TokenKind::Op(BinaryOp::Add) => Some(UnaryOp::Plus),
        TokenKind::Op(BinaryOp::Sub) => Some(UnaryOp::Minus),
        TokenKind::Tilde => Some(UnaryOp::Tilde),
        TokenKind::Bang => Some(UnaryOp::Bang),
        _ => None,
    }
}

/// The update operator a token stands for, if any.
pub open spec fn update_op_of_spec(kind: TokenKind) -> Option<UpdateOp> {
    match kind {
        TokenKind::PlusPlus => Some(UpdateOp::PlusPlus),
        TokenKind::MinusMinus => Some(UpdateOp::MinusMinus),
        _ => None,
    }
}

/// UnaryExpression and UpdateExpression: prefix updates (whose operand must
/// be a valid simple assignment target), unary operators, `await` when the
/// context allows it, and otherwise a left-hand-side expression optionally
/// followed by a postfix update on the same line.
pub open spec fn parse_unary_spec(toks: Seq<Token>, ctx: Context, pos: int) -> Parse<Expr>
    decreases toks.len() - pos, 1int,
{
    if pos < 0 || pos >= toks.len() {
        Parse::Fail { err: ParseError::UnexpectedEnd }
    } else {
        let t = toks[pos];
        if update_op_of_spec(t.kind) is Some {
            let op = update_op_of_spec(t.kind)->Some_0;
            match parse_unary_spec(toks, ctx, pos + 1) {
                Parse::Done { v: arg, end } => {
                    if !is_simple_target_spec(arg, ctx.strict) {
                        Parse::Fail {
                            err: ParseError::InvalidAssignmentTarget { span: arg.span },
                        }
                    } else {
                        Parse::Done {
                            v: Expr {
                                span: Span { lo: t.span.lo, hi: arg.span.hi },
                                kind: ExprKind::Update { op, prefix: true, arg: Box::new(arg) },
                            },
                            end,
                        }
                    }
                },
                f => f,
            }
        } else if unary_op_of_spec(t.kind) is Some {
            let op = unary_op_of_spec(t.kind)->Some_0;
            match parse_unary_spec(toks, ctx, pos + 1) {
                Parse::Done { v: arg, end } => Parse::Done {
                    v: Expr {
                        span: Span { lo: t.span.lo, hi: arg.span.hi },
                        kind: ExprKind::Unary { op, arg: Box::new(arg) },
                    },
                    end,
                },
                f => f,
            }
        } else if t.kind is KwAwait && ctx.in_async {
            parse_await_spec(toks, ctx, pos)
        } else {
            match parse_lhs_spec(toks, ctx, pos) {
                Parse::Done { v: expr, end } => {
                    if expr.kind is Arrow {
                        // an arrow function is never the operand of a
                        // postfix update
                        Parse::Done { v: expr, end }
                    } else if 0 <= end && end < toks.len() && !toks[end].had_line_break
                        && update_op_of_spec(toks[end].kind) is Some {
                        if !is_simple_target_spec(expr, ctx.strict) {
                            Parse::Fail {
                                err: ParseError::InvalidAssignmentTarget { span: expr.span },
                            }
                        } else {
                            Parse::Done {
                                v: Expr {
                                    span: Span { lo: expr.span.lo, hi: toks[end].span.hi },
                                    kind: ExprKind::Update {
                                        op: update_op_of_spec(toks[end].kind)->Some_0,
                                        prefix: false,
                                        arg: Box::new(expr),
                                    },
                                },
                                end: end + 1,
                            }
                        }
                    } else {
                        Parse::Done { v: expr, end }
                    }
                },
                f => f,
            }
        }
    }
}

/// The precedence-climbing engine. `left` covers the tokens up to `pos`;
/// operators whose precedence is at most `min_prec` are left for the
/// caller. A `**` folded onto a bare unary expression is the dedicated
/// ambiguity error; the right operand of each folded operator is climbed
/// with the operator's own threshold (`climb_min_spec`), which makes `**`
/// nest to the right and every other operator nest to the left.
pub open spec fn parse_bin_rec_spec(
    toks: Seq<Token>,
    ctx: Context,
    left: Expr,
    min_prec: u8,
    pos: int,
) -> Parse<Expr>
    decreases toks.len() - pos, 2int,
{
    if pos < 0 || pos >= toks.len() {
        Parse::Done { v: left, end: pos }
    } else {
        match bin_op_of_spec(toks[pos].kind, ctx) {
            None => Parse::Done { v: left, end: pos },
            Some(op) => {
                if op.prec_spec() <= min_prec {
                    Parse::Done { v: left, end: pos }
                } else if left.kind is Unary && op is Exp {
                    Parse::Fail {
                        err: ParseError::AmbiguousExponentiation { left_span: left.span },
                    }
                } else {
                    match parse_unary_spec(toks, ctx, pos + 1) {
                        Parse::Done { v: right_start, end: uend } => {
                            if !(pos + 1 < uend <= toks.len()) {
                                // progress guard (vacuous, see lemma_unary_progress)
                                Parse::Fail { err: ParseError::UnexpectedEnd }
                            } else {
                                match parse_bin_rec_spec(
                                    toks,
                                    ctx,
                                    right_start,
                                    op.climb_min_spec(),
                                    uend,
                                ) {
                                    Parse::Done { v: right, end: rend } => {
                                        let node = Expr {
                                            span: Span { lo: left.span.lo, hi: right.span.hi },
                                            kind: ExprKind::Bin {
                                                op,
                                                left: Box::new(left),
                                                right: Box::new(right),
                                            },
                                        };
                                        if !(pos < rend <= toks.len()) {
                                            // progress guard (vacuous)
                                            Parse::Fail { err: ParseError::UnexpectedEnd }
                                        } else {
                                            parse_bin_rec_spec(toks, ctx, node, min_prec, rend)
                                        }
                                    },
                                    f => f,
                                }
                            }
                        },
                        f => f,
                    }
                }
            },
        }
    }
}

/// The entry point: a unary expression handed to the climbing engine at
/// threshold 0, so every available operator is eligible; an arrow function
/// is returned untouched.
pub open spec fn parse_bin_expr_spec(toks: Seq<Token>, ctx: Context, pos: int) -> Parse<Expr>
    decreases toks.len() - pos, 3int,
{
    match parse_unary_spec(toks, ctx, pos) {
        Parse::Done { v: left, end } => {
            if left.kind is Arrow {
                Parse::Done { v: left, end }
            } else if !(pos < end <= toks.len()) {
                // progress guard (vacuous, see lemma_unary_progress)
                Parse::Fail { err: ParseError::UnexpectedEnd }
            } else {
                parse_bin_rec_spec(toks, ctx, left, 0, end)
            }
        },
        f => f,
    }
}

/// A successful member-chain parse never moves backwards and stays inside
/// the token sequence.
pub proof fn lemma_member_progress(toks: Seq<Token>, obj: Expr, pos: int)
    requires
        0 <= pos <= toks.len(),
    ensures
        parse_member_spec(toks, obj, pos) matches Parse::Done { v, end } ==> pos <= end
            <= toks.len(),
    decreases toks.len() - pos, 0int,
{
    if 0 <= pos && pos < toks.len() && toks[pos].kind is Dot {
        if pos + 1 < toks.len() {
            match toks[pos + 1].kind {
                TokenKind::Ident(s) => {
                    let prop = Expr { span: toks[pos + 1].span, kind: ExprKind::Ident(s) };
                    let node = Expr {
                        span: Span { lo: obj.span.lo, hi: toks[pos + 1].span.hi },
                        kind: ExprKind::Member { obj: Box::new(obj), prop: Box::new(prop) },
                    };
                    lemma_member_progress(toks, node, pos + 2);
                },
                _ => {},
            }
        }
    }
}

/// A successful left-hand-side parse starts inside the sequence and
/// consumes at least one token.
pub proof fn lemma_lhs_progress(toks: Seq<Token>, ctx: Context, pos: int)
    ensures
        parse_lhs_spec(toks, ctx, pos) matches Parse::Done { v, end } ==> 0 <= pos < end
            <= toks.len(),
    decreases toks.len() - pos, 0int,
{
    if pos < 0 || pos >= toks.len() {
    } else if is_operand_token(toks[pos].kind) {
        lemma_member_progress(toks, atom_expr(toks[pos]), pos + 1);
    } else if toks[pos].kind is LParen {
        lemma_bin_expr_progress(toks, ctx, pos + 1);
        match parse_bin_expr_spec(toks, ctx, pos + 1) {
            Parse::Done { v: inner, end } => {
                if end < toks.len() && toks[end].kind is RParen {
                    let paren = Expr {
                        span: Span { lo: toks[pos].span.lo, hi: toks[end].span.hi },
                        kind: ExprKind::Paren(Box::new(inner)),
                    };
                    if end + 1 < toks.len() && toks[end + 1].kind is Arrow {
                        lemma_bin_expr_progress(toks, ctx, end + 2);
                    } else {
                        lemma_member_progress(toks, paren, end + 1);
                    }
                }
            },
            Parse::Fail { .. } => {},
        }
    }
}

/// A successful await parse starts inside the sequence and consumes at
/// least one token.
pub proof fn lemma_await_progress(toks: Seq<Token>, ctx: Context, pos: int)
    ensures
        parse_await_spec(toks, ctx, pos) matches Parse::Done { v, end } ==> 0 <= pos < end
            <= toks.len(),
    decreases toks.len() - pos, 0int,
{
    if pos < 0 || pos >= toks.len() {
    } else if pos + 1 < toks.len() && toks[pos + 1].kind == TokenKind::Op(BinaryOp::Mul) {
    } else {
        lemma_unary_progress(toks, ctx, pos + 1);
    }
}

/// A successful unary parse starts inside the sequence and consumes at
/// least one token.
pub proof fn lemma_unary_progress(toks: Seq<Token>, ctx: Context, pos: int)
    ensures
        parse_unary_spec(toks, ctx, pos) matches Parse::Done { v, end } ==> 0 <= pos < end
            <= toks.len(),
    decreases toks.len() - pos, 1int,
{
    if pos < 0 || pos >= toks.len() {
    } else {
        let t = toks[pos];
        if update_op_of_spec(t.kind) is Some {
            lemma_unary_progress(toks, ctx, pos + 1);
        } else if unary_op_of_spec(t.kind) is Some {
            lemma_unary_progress(toks, ctx, pos + 1);
        } else if t.kind is KwAwait && ctx.in_async {
            lemma_await_progress(toks, ctx, pos);
        } else {
            lemma_lhs_progress(toks, ctx, pos);
        }
    }
}

/// The climbing engine never moves backwards and stays inside the token
/// sequence.
pub proof fn lemma_bin_rec_progress(
    toks: Seq<Token>,
    ctx: Context,
    left: Expr,
    min_prec: u8,
    pos: int,
)
    requires
        0 <= pos <= toks.len(),
    ensures
        parse_bin_rec_spec(toks, ctx, left, min_prec, pos) matches Parse::Done { v, end }
            ==> pos <= end <= toks.len(),
    decreases toks.len() - pos, 2int,
{
    if pos < 0 || pos >= toks.len() {
    } else {
        match bin_op_of_spec(toks[pos].kind, ctx) {
            None => {},
            Some(op) => {
                if op.prec_spec() <= min_prec {
                } else if left.kind is Unary && op is Exp {
                } else {
                    lemma_unary_progress(toks, ctx, pos + 1);
                    match parse_unary_spec(toks, ctx, pos + 1) {
                        Parse::Done { v: right_start, end: uend } => {
                            if !(pos + 1 < uend <= toks.len()) {
                            } else {
                                lemma_bin_rec_progress(
                                    toks,
                                    ctx,
                                    right_start,
                                    op.climb_min_spec(),
                                    uend,
                                );
                                match parse_bin_rec_spec(
                                    toks,
                                    ctx,
                                    right_start,
                                    op.climb_min_spec(),
                                    uend,
                                ) {
                                    Parse::Done { v: right, end: rend } => {
                                        let node = Expr {
                                            span: Span { lo: left.span.lo, hi: right.span.hi },
                                            kind: ExprKind::Bin {
                                                op,
                                                left: Box::new(left),
                                                right: Box::new(right),
                                            },
                                        };
                                        if !(pos < rend <= toks.len()) {
                                        } else {
                                            lemma_bin_rec_progress(toks, ctx, node, min_prec, rend);
                                        }
                                    },
                                    Parse::Fail { .. } => {},
                                }
                            }
                        },
                        Parse::Fail { .. } => {},
                    }
                }
            },
        }
    }
}

/// A successful full binary-expression parse starts inside the sequence
/// and consumes at least one token.
pub proof fn lemma_bin_expr_progress(toks: Seq<Token>, ctx: Context, pos: int)
    ensures
        parse_bin_expr_spec(toks, ctx, pos) matches Parse::Done { v, end } ==> 0 <= pos < end
            <= toks.len(),
    decreases toks.len() - pos, 3int,
{
    lemma_unary_progress(toks, ctx, pos);
    match parse_unary_spec(toks, ctx, pos) {
        Parse::Done { v: left, end } => {
            if left.kind is Arrow {
            } else if !(pos < end <= toks.len()) {
            } else {
                lemma_bin_rec_progress(toks, ctx, left, 0, end);
            }
        },
        Parse::Fail { .. } => {},
    }
}

} // verus!
