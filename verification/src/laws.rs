//! The general laws of the expression grammar, stated and proved over the
//! definitional interpreter: precedence shapes, the line-terminator
//! restriction on postfix operators, the context gates for `in` and
//! `await`, and the span round-trip property.

use vstd::prelude::*;
use crate::ast::{BinaryOp, Expr, ExprKind, Span, is_simple_target_spec};
use crate::context::Context;
use crate::error::ParseError;
use crate::grammar::{
    Parse, atom_expr, is_operand_token, parse_bin_expr_spec, parse_bin_rec_spec, parse_lhs_spec,
    parse_await_spec, parse_member_spec, parse_unary_spec, unary_op_of_spec, update_op_of_spec,
};
use crate::token::{Token, TokenKind, bin_op_of_spec};

verus! {

/// Precedence law. For any five-token stream of three operands around two
/// eligible binary operators `t1` and `t2`, the operator that binds
/// tighter ends up nested as an argument of the looser one: with `t1`
/// tighter the tree is `(a t1 b) t2 c`, with `t2` tighter it is
/// `a t1 (b t2 c)`, and the whole stream is consumed either way.
pub proof fn lemma_precedence(
    a: Token,
    t1: Token,
    b: Token,
    t2: Token,
    c: Token,
    ctx: Context,
    op1: BinaryOp,
    op2: BinaryOp,
)
    requires
        is_operand_token(a.kind),
        is_operand_token(b.kind),
        is_operand_token(c.kind),
        bin_op_of_spec(t1.kind, ctx) == Some(op1),
        bin_op_of_spec(t2.kind, ctx) == Some(op2),
    ensures
        op1.prec_spec() > op2.prec_spec() ==> parse_bin_expr_spec(seq![a, t1, b, t2, c], ctx, 0)
            == (Parse::Done {
            v: Expr {
                span: Span { lo: a.span.lo, hi: c.span.hi },
                kind: ExprKind::Bin {
                    op: op2,
                    left: Box::new(
                        Expr {
                            span: Span { lo: a.span.lo, hi: b.span.hi },
                            kind: ExprKind::Bin {
                                op: op1,
                                left: Box::new(atom_expr(a)),
                                right: Box::new(atom_expr(b)),
                            },
                        },
                    ),
                    right: Box::new(atom_expr(c)),
                },
            },
            end: 5int,
        }),
        op1.prec_spec() < op2.prec_spec() ==> parse_bin_expr_spec(seq![a, t1, b, t2, c], ctx, 0)
            == (Parse::Done {
            v: Expr {
                span: Span { lo: a.span.lo, hi: c.span.hi },
                kind: ExprKind::Bin {
                    op: op1,
                    left: Box::new(atom_expr(a)),
                    right: Box::new(
                        Expr {
                            span: Span { lo: b.span.lo, hi: c.span.hi },
                            kind: ExprKind::Bin {
                                op: op2,
                                left: Box::new(atom_expr(b)),
                                right: Box::new(atom_expr(c)),
                            },
                        },
                    ),
                },
            },
            end: 5int,
        }),
{
    let toks = seq![a, t1, b, t2, c];
    let ea = atom_expr(a);
    let eb = atom_expr(b);
    let ec = atom_expr(c);
    assert(parse_member_spec(toks, ea, 1) == Parse::Done::<Expr> { v: ea, end: 1int });
    assert(parse_lhs_spec(toks, ctx, 0) == Parse::Done::<Expr> { v: ea, end: 1int });
    assert(parse_unary_spec(toks, ctx, 0) == Parse::Done::<Expr> { v: ea, end: 1int });
    assert(parse_member_spec(toks, eb, 3) == Parse::Done::<Expr> { v: eb, end: 3int });
    assert(parse_lhs_spec(toks, ctx, 2) == Parse::Done::<Expr> { v: eb, end: 3int });
    assert(parse_unary_spec(toks, ctx, 2) == Parse::Done::<Expr> { v: eb, end: 3int });
    assert(parse_member_spec(toks, ec, 5) == Parse::Done::<Expr> { v: ec, end: 5int });
    assert(parse_lhs_spec(toks, ctx, 4) == Parse::Done::<Expr> { v: ec, end: 5int });
    assert(parse_unary_spec(toks, ctx, 4) == Parse::Done::<Expr> { v: ec, end: 5int });
    if op1.prec_spec() > op2.prec_spec() {
        assert(parse_bin_rec_spec(toks, ctx, eb, op1.climb_min_spec(), 3) == Parse::Done::<
            Expr,
        > { v: eb, end: 3int });
        let node1 = Expr {
            span: Span { lo: a.span.lo, hi: b.span.hi },
            kind: ExprKind::Bin { op: op1, left: Box::new(ea), right: Box::new(eb) },
        };
        assert(parse_bin_rec_spec(toks, ctx, ec, op2.climb_min_spec(), 5) == Parse::Done::<
            Expr,
        > { v: ec, end: 5int });
        let node2 = Expr {
            span: Span { lo: a.span.lo, hi: c.span.hi },
            kind: ExprKind::Bin { op: op2, left: Box::new(node1), right: Box::new(ec) },
        };
        assert(parse_bin_rec_spec(toks, ctx, node2, 0, 5) == Parse::Done::<Expr> {
            v: node2,
            end: 5int,
        });
        assert(parse_bin_rec_spec(toks, ctx, node1, 0, 3) == Parse::Done::<Expr> {
            v: node2,
            end: 5int,
        });
        assert(parse_bin_rec_spec(toks, ctx, ea, 0, 1) == Parse::Done::<Expr> {
            v: node2,
            end: 5int,
        });
    }
    if op1.prec_spec() < op2.prec_spec() {
        assert(parse_bin_rec_spec(toks, ctx, ec, op2.climb_min_spec(), 5) == Parse::Done::<
            Expr,
        > { v: ec, end: 5int });
        let node_r = Expr {
            span: Span { lo: b.span.lo, hi: c.span.hi },
            kind: ExprKind::Bin { op: op2, left: Box::new(eb), right: Box::new(ec) },
        };
        assert(parse_bin_rec_spec(toks, ctx, node_r, op1.climb_min_spec(), 5) == Parse::Done::<
            Expr,
        > { v: node_r, end: 5int });
        assert(parse_bin_rec_spec(toks, ctx, eb, op1.climb_min_spec(), 3) == Parse::Done::<
            Expr,
        > { v: node_r, end: 5int });
        let node = Expr {
            span: Span { lo: a.span.lo, hi: c.span.hi },
            kind: ExprKind::Bin { op: op1, left: Box::new(ea), right: Box::new(node_r) },
        };
        assert(parse_bin_rec_spec(toks, ctx, node, 0, 5) == Parse::Done::<Expr> {
            v: node,
            end: 5int,
        });
        assert(parse_bin_rec_spec(toks, ctx, ea, 0, 1) == Parse::Done::<Expr> {
            v: node,
            end: 5int,
        });
    }
}

/// The automatic-semicolon-insertion restriction on postfix operators. For
/// an operand followed by `++` or `--`: with a line terminator between
/// them the operator is not consumed and the operand alone is the result;
/// on the same line it is consumed as a postfix update when the operand is
/// a valid simple target, and is the invalid-target error otherwise.
pub proof fn lemma_postfix_line_break(a: Token, t_upd: Token, ctx: Context)
    requires
        is_operand_token(a.kind),
        update_op_of_spec(t_upd.kind) is Some,
    ensures
        t_upd.had_line_break ==> parse_unary_spec(seq![a, t_upd], ctx, 0) == (Parse::Done {
            v: atom_expr(a),
            end: 1int,
        }),
        !t_upd.had_line_break && is_simple_target_spec(atom_expr(a), ctx.strict)
            ==> parse_unary_spec(seq![a, t_upd], ctx, 0) == (Parse::Done {
            v: Expr {
                span: Span { lo: a.span.lo, hi: t_upd.span.hi },
                kind: ExprKind::Update {
                    op: update_op_of_spec(t_upd.kind)->Some_0,
                    prefix: false,
                    arg: Box::new(atom_expr(a)),
                },
            },
            end: 2int,
        }),
        !t_upd.had_line_break && !is_simple_target_spec(atom_expr(a), ctx.strict)
            ==> parse_unary_spec(seq![a, t_upd], ctx, 0) == (Parse::Fail::<Expr> {
            err: ParseError::InvalidAssignmentTarget { span: a.span },
        }),
{
    let toks = seq![a, t_upd];
    let ea = atom_expr(a);
    assert(parse_member_spec(toks, ea, 1) == Parse::Done::<Expr> { v: ea, end: 1int });
    assert(parse_lhs_spec(toks, ctx, 0) == Parse::Done::<Expr> { v: ea, end: 1int });
}

/// The context gate for `in`. For a stream `x in y` of operand tokens
/// around the `in` keyword: with `include_in_expr` false the parse stops
/// after `x`, returning it as the complete expression and leaving `in y`
/// unconsumed; with it true the same stream is one `in` node consuming
/// everything.
pub proof fn lemma_in_operator_gating(a: Token, t_in: Token, b: Token, ctx: Context)
    requires
        is_operand_token(a.kind),
        is_operand_token(b.kind),
        t_in.kind is KwIn,
    ensures
        !ctx.include_in_expr ==> parse_bin_expr_spec(seq![a, t_in, b], ctx, 0) == (Parse::Done {
            v: atom_expr(a),
            end: 1int,
        }),
        ctx.include_in_expr ==> parse_bin_expr_spec(seq![a, t_in, b], ctx, 0) == (Parse::Done {
            v: Expr {
                span: Span { lo: a.span.lo, hi: b.span.hi },
                kind: ExprKind::Bin {
                    op: BinaryOp::In,
                    left: Box::new(atom_expr(a)),
                    right: Box::new(atom_expr(b)),
                },
            },
            end: 3int,
        }),
{
    let toks = seq![a, t_in, b];
    let ea = atom_expr(a);
    let eb = atom_expr(b);
    assert(parse_member_spec(toks, ea, 1) == Parse::Done::<Expr> { v: ea, end: 1int });
    assert(parse_lhs_spec(toks, ctx, 0) == Parse::Done::<Expr> { v: ea, end: 1int });
    assert(parse_unary_spec(toks, ctx, 0) == Parse::Done::<Expr> { v: ea, end: 1int });
    if ctx.include_in_expr {
        assert(parse_member_spec(toks, eb, 3) == Parse::Done::<Expr> { v: eb, end: 3int });
        assert(parse_lhs_spec(toks, ctx, 2) == Parse::Done::<Expr> { v: eb, end: 3int });
        assert(parse_unary_spec(toks, ctx, 2) == Parse::Done::<Expr> { v: eb, end: 3int });
        assert(parse_bin_rec_spec(toks, ctx, eb, BinaryOp::In.climb_min_spec(), 3)
            == Parse::Done::<Expr> { v: eb, end: 3int });
        let node = Expr {
            span: Span { lo: a.span.lo, hi: b.span.hi },
            kind: ExprKind::Bin {
                op: BinaryOp::In,
                left: Box::new(ea),
                right: Box::new(eb),
            },
        };
        assert(parse_bin_rec_spec(toks, ctx, node, 0, 3) == Parse::Done::<Expr> {
            v: node,
            end: 3int,
        });
        assert(parse_bin_rec_spec(toks, ctx, ea, 0, 1) == Parse::Done::<Expr> {
            v: node,
            end: 3int,
        });
    }
}

/// The context gate for `await`. For `await x`: inside an async context
/// the result is an `Await` node; outside one this layer does not claim
/// the keyword as an operator — the stand-in left-hand-side collaborator
/// reports it as an unexpected token instead.
pub proof fn lemma_await_gating(t_await: Token, x: Token, ctx: Context)
    requires
        t_await.kind is KwAwait,
        is_operand_token(x.kind),
    ensures
        ctx.in_async ==> parse_unary_spec(seq![t_await, x], ctx, 0) == (Parse::Done {
            v: Expr {
                span: Span { lo: t_await.span.lo, hi: x.span.hi },
                kind: ExprKind::Await { arg: Box::new(atom_expr(x)) },
            },
            end: 2int,
        }),
        !ctx.in_async ==> parse_unary_spec(seq![t_await, x], ctx, 0) == (Parse::Fail::<Expr> {
            err: ParseError::UnexpectedToken { span: t_await.span },
        }),
{
    let toks = seq![t_await, x];
    let ex = atom_expr(x);
    assert(parse_member_spec(toks, ex, 2) == Parse::Done::<Expr> { v: ex, end: 2int });
    assert(parse_lhs_spec(toks, ctx, 1) == Parse::Done::<Expr> { v: ex, end: 2int });
    assert(parse_unary_spec(toks, ctx, 1) == Parse::Done::<Expr> { v: ex, end: 2int });
    if ctx.in_async {
        assert(parse_await_spec(toks, ctx, 0) == Parse::Done::<Expr> {
            v: Expr {
                span: Span { lo: t_await.span.lo, hi: x.span.hi },
                kind: ExprKind::Await { arg: Box::new(ex) },
            },
            end: 2int,
        });
    } else {
        assert(parse_lhs_spec(toks, ctx, 0) == Parse::Fail::<Expr> {
            err: ParseError::UnexpectedToken { span: t_await.span },
        });
    }
}

/// The number of tokens an expression was parsed from.
pub open spec fn tok_count(e: Expr) -> int
    decreases e,
{
    match e.kind {
        ExprKind::Num(_) => 1,
        ExprKind::Str(_) => 1,
        ExprKind::Ident(_) => 1,
        ExprKind::Member { obj, prop } => tok_count(*obj) + 1 + tok_count(*prop),
        ExprKind::Paren(inner) => tok_count(*inner) + 2,
        ExprKind::Arrow { param, body } => tok_count(*param) + 1 + tok_count(*body),
        ExprKind::Unary { op, arg } => 1 + tok_count(*arg),
        ExprKind::Update { op, prefix, arg } => 1 + tok_count(*arg),
        ExprKind::Bin { op, left, right } => tok_count(*left) + 1 + tok_count(*right),
        ExprKind::Await { arg } => 1 + tok_count(*arg),
    }
}

/// The span round-trip property for one node: `e` was parsed from exactly
/// the tokens `[lo, hi)` of `toks`, its span runs from the first of those
/// tokens to the last, and every child covers its own contiguous sub-range
/// of them the same way, with no gaps between siblings and one token for
/// each operator, dot, parenthesis or arrow between and around them.
pub open spec fn covers(e: Expr, toks: Seq<Token>, lo: int, hi: int) -> bool
    decreases e,
{
    &&& 0 <= lo < hi <= toks.len()
    &&& hi - lo == tok_count(e)
    &&& e.span.lo == toks[lo].span.lo
    &&& e.span.hi == toks[hi - 1].span.hi
    &&& match e.kind {
        ExprKind::Num(_) => true,
        ExprKind::Str(_) => true,
        ExprKind::Ident(_) => true,
        ExprKind::Member { obj, prop } => covers(*obj, toks, lo, hi - 2) && covers(
            *prop,
            toks,
            hi - 1,
            hi,
        ),
        ExprKind::Paren(inner) => covers(*inner, toks, lo + 1, hi - 1),
        ExprKind::Arrow { param, body } => covers(*param, toks, lo, lo + tok_count(*param))
            && covers(*body, toks, lo + tok_count(*param) + 1, hi),
        ExprKind::Unary { op, arg } => covers(*arg, toks, lo + 1, hi),
        ExprKind::Update { op, prefix, arg } => if prefix {
            covers(*arg, toks, lo + 1, hi)
        } else {
            covers(*arg, toks, lo, hi - 1)
        },
        ExprKind::Bin { op, left, right } => covers(*left, toks, lo, lo + tok_count(*left))
            && covers(*right, toks, lo + tok_count(*left) + 1, hi),
        ExprKind::Await { arg } => covers(*arg, toks, lo + 1, hi),
    }
}

/// Span law, member chains: a chain folded onto an object covering
/// `[lo, pos)` covers `[lo, end)`.
pub proof fn lemma_member_covers(toks: Seq<Token>, obj: Expr, pos: int, lo: int)
    requires
        covers(obj, toks, lo, pos),
    ensures
        parse_member_spec(toks, obj, pos) matches Parse::Done { v, end } ==> covers(
            v,
            toks,
            lo,
            end,
        ),
    decreases toks.len() - pos, 0int,
{
    if 0 <= pos && pos < toks.len() && toks[pos].kind is Dot {
        if pos + 1 < toks.len() {
            match toks[pos + 1].kind {
                TokenKind::Ident(s) => {
                    let prop = Expr { span: toks[pos + 1].span, kind: ExprKind::Ident(s) };
                    let node = Expr {
                        span: Span { lo: obj.span.lo, hi: toks[pos + 1].span.hi },
                        kind: ExprKind::Member { obj: Box::new(obj), prop: Box::new(prop) },
                    };
                    assert(covers(prop, toks, pos + 1, pos + 2));
                    assert(covers(node, toks, lo, pos + 2));
                    lemma_member_covers(toks, node, pos + 2, lo);
                },
                _ => {},
            }
        }
    }
}

/// Span law, left-hand-side expressions: a successful parse covers exactly
/// the consumed tokens.
pub proof fn lemma_lhs_covers(toks: Seq<Token>, ctx: Context, pos: int)
    ensures
        parse_lhs_spec(toks, ctx, pos) matches Parse::Done { v, end } ==> covers(v, toks, pos, end),
    decreases toks.len() - pos, 0int,
{
    if pos < 0 || pos >= toks.len() {
    } else if is_operand_token(toks[pos].kind) {
        assert(covers(atom_expr(toks[pos]), toks, pos, pos + 1));
        lemma_member_covers(toks, atom_expr(toks[pos]), pos + 1, pos);
    } else if toks[pos].kind is LParen {
        lemma_bin_expr_covers(toks, ctx, pos + 1);
        match parse_bin_expr_spec(toks, ctx, pos + 1) {
            Parse::Done { v: inner, end } => {
                if end < toks.len() && toks[end].kind is RParen {
                    let paren = Expr {
                        span: Span { lo: toks[pos].span.lo, hi: toks[end].span.hi },
                        kind: ExprKind::Paren(Box::new(inner)),
                    };
                    assert(covers(paren, toks, pos, end + 1));
                    if end + 1 < toks.len() && toks[end + 1].kind is Arrow {
                        lemma_bin_expr_covers(toks, ctx, end + 2);
                        match parse_bin_expr_spec(toks, ctx, end + 2) {
                            Parse::Done { v: body, end: bend } => {
                                let arrow = Expr {
                                    span: Span { lo: toks[pos].span.lo, hi: body.span.hi },
                                    kind: ExprKind::Arrow {
                                        param: Box::new(paren),
                                        body: Box::new(body),
                                    },
                                };
                                assert(covers(arrow, toks, pos, bend));
                            },
                            Parse::Fail { .. } => {},
                        }
                    } else {
                        lemma_member_covers(toks, paren, end + 1, pos);
                    }
                }
            },
            Parse::Fail { .. } => {},
        }
    }
}

/// Span law, await expressions.
pub proof fn lemma_await_covers(toks: Seq<Token>, ctx: Context, pos: int)
    ensures
        parse_await_spec(toks, ctx, pos) matches Parse::Done { v, end } ==> covers(
            v,
            toks,
            pos,
            end,
        ),
    decreases toks.len() - pos, 0int,
{
    if pos < 0 || pos >= toks.len() {
    } else if pos + 1 < toks.len() && toks[pos + 1].kind == TokenKind::Op(BinaryOp::Mul) {
    } else {
        lemma_unary_covers(toks, ctx, pos + 1);
    }
}

/// Span law, unary and update expressions.
pub proof fn lemma_unary_covers(toks: Seq<Token>, ctx: Context, pos: int)
    ensures
        parse_unary_spec(toks, ctx, pos) matches Parse::Done { v, end } ==> covers(
            v,
            toks,
            pos,
            end,
        ),
    decreases toks.len() - pos, 1int,
{
    if pos < 0 || pos >= toks.len() {
    } else {
        let t = toks[pos];
        if update_op_of_spec(t.kind) is Some {
            lemma_unary_covers(toks, ctx, pos + 1);
        } else if unary_op_of_spec(t.kind) is Some {
            lemma_unary_covers(toks, ctx, pos + 1);
        } else if t.kind is KwAwait && ctx.in_async {
            lemma_await_covers(toks, ctx, pos);
        } else {
            lemma_lhs_covers(toks, ctx, pos);
        }
    }
}

/// Span law, the climbing engine: with `left` covering `[lo, pos)`, the
/// folded result covers `[lo, end)`.
pub proof fn lemma_bin_rec_covers(
    toks: Seq<Token>,
    ctx: Context,
    left: Expr,
    min_prec: u8,
    pos: int,
    lo: int,
)
    requires
        covers(left, toks, lo, pos),
    ensures
        parse_bin_rec_spec(toks, ctx, left, min_prec, pos) matches Parse::Done { v, end }
            ==> covers(v, toks, lo, end),
    decreases toks.len() - pos, 2int,
{
    if pos < 0 || pos >= toks.len() {
    } else {
        match bin_op_of_spec(toks[pos].kind, ctx) {
            None => {},
            Some(op) => {
                if op.prec_spec() <= min_prec {
                } else if left.kind is Unary && op is Exp {
                } else {
                    lemma_unary_covers(toks, ctx, pos + 1);
                    match parse_unary_spec(toks, ctx, pos + 1) {
                        Parse::Done { v: right_start, end: uend } => {
                            if !(pos + 1 < uend <= toks.len()) {
                            } else {
                                lemma_bin_rec_covers(
                                    toks,
                                    ctx,
                                    right_start,
                                    op.climb_min_spec(),
                                    uend,
                                    pos + 1,
                                );
                                match parse_bin_rec_spec(
                                    toks,
                                    ctx,
                                    right_start,
                                    op.climb_min_spec(),
                                    uend,
                                ) {
                                    Parse::Done { v: right, end: rend } => {
                                        let node = Expr {
                                            span: Span { lo: left.span.lo, hi: right.span.hi },
                                            kind: ExprKind::Bin {
                                                op,
                                                left: Box::new(left),
                                                right: Box::new(right),
                                            },
                                        };
                                        assert(covers(node, toks, lo, rend));
                                        if !(pos < rend <= toks.len()) {
                                        } else {
                                            lemma_bin_rec_covers(
                                                toks,
                                                ctx,
                                                node,
                                                min_prec,
                                                rend,
                                                lo,
                                            );
                                        }
                                    },
                                    Parse::Fail { .. } => {},
                                }
                            }
                        },
                        Parse::Fail { .. } => {},
                    }
                }
            },
        }
    }
}

/// Span round-trip law: a successful full parse returns a tree whose every
/// node's span exactly covers the tokens that node was parsed from — the
/// root covers all consumed tokens, and each child covers its own
/// contiguous sub-range.
pub proof fn lemma_bin_expr_covers(toks: Seq<Token>, ctx: Context, pos: int)
    ensures
        parse_bin_expr_spec(toks, ctx, pos) matches Parse::Done { v, end } ==> covers(
            v,
            toks,
            pos,
            end,
        ),
    decreases toks.len() - pos, 3int,
{
    lemma_unary_covers(toks, ctx, pos);
    match parse_unary_spec(toks, ctx, pos) {
        Parse::Done { v: left, end } => {
            if left.kind is Arrow {
            } else if !(pos < end <= toks.len()) {
            } else {
                lemma_bin_rec_covers(toks, ctx, left, 0, end, pos);
            }
        },
        Parse::Fail { .. } => {},
    }
}

} // verus!
