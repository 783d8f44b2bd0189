//! The executable parser over a token stream. Each method's contract
//! equates its result and its final position with the definitional
//! interpreter in `grammar`.

use vstd::prelude::*;
use crate::ast::{BinaryOp, Expr, ExprKind, Span, UnaryOp, UpdateOp, is_simple_target};
use crate::context::Context;
use crate::error::ParseError;
use crate::grammar::{
    Parse, atom_expr, lemma_bin_expr_progress, lemma_bin_rec_progress, lemma_unary_progress,
    parse_await_spec, parse_bin_expr_spec, parse_bin_rec_spec, parse_lhs_spec, parse_member_spec,
    parse_unary_spec,
};
use crate::laws::{covers, lemma_bin_expr_covers};
use crate::token::{Token, TokenKind, bin_op_of};

verus! {

/// A parser owning its position in a token stream, under an immutable
/// context. A sub-parse that needs a different context saves the current
/// one, installs a modified copy, and restores the original afterwards;
/// every public method leaves `ctx` as it found it.
pub struct Parser {
    pub tokens: Vec<Token>,
    pub pos: usize,
    pub ctx: Context,
}

impl Parser {
    /// The parser's position never passes the end of the stream.
    pub open spec fn wf(self) -> bool {
        self.pos <= self.tokens.len()
    }

    /// A fresh parser at the start of the stream.
    pub fn new(tokens: Vec<Token>, ctx: Context) -> (p: Parser)
        ensures
            p.tokens == tokens,
            p.pos == 0,
            p.ctx == ctx,
            p.wf(),
    {
        Parser { tokens, pos: 0, ctx }
    }
}

/// How an executable result relates to an interpreter outcome: a `Done`
/// outcome is the same tree with the parser stopped at `end`, a `Fail`
/// outcome is the same error.
pub open spec fn matches_expr_result(
    res: Parse<Expr>,
    r: Result<Box<Expr>, ParseError>,
    endpos: usize,
) -> bool {
    match res {
        Parse::Done { v, end } => r matches Ok(b) && *b == v && endpos as int == end,
        Parse::Fail { err } => r matches Err(e) && e == err,
    }
}

impl Parser {
    /// Whether the current token exists and is a `.`.
    fn cur_is_dot(&self) -> (b: bool)
        requires
            self.wf(),
        ensures
            b == (self.pos < self.tokens.len() && self.tokens@[self.pos as int].kind is Dot),
    {
        self.pos < self.tokens.len() && matches!(&self.tokens[self.pos].kind, TokenKind::Dot)
    }

    /// Folds `.name` accesses onto `obj`, which covers the tokens before
    /// the current position.
    fn parse_member_chain(&mut self, obj: Expr) -> (r: Result<Box<Expr>, ParseError>)
        requires
            old(self).wf(),
        ensures
            final(self).wf(),
            final(self).tokens == old(self).tokens,
            final(self).ctx == old(self).ctx,
            matches_expr_result(
                parse_member_spec(old(self).tokens@, obj, old(self).pos as int),
                r,
                final(self).pos,
            ),
    {
        let ghost toks = self.tokens@;
        let mut cur = obj;
        while self.cur_is_dot()
            invariant
                self.wf(),
                self.tokens == old(self).tokens,
                self.ctx == old(self).ctx,
                toks == self.tokens@,
                parse_member_spec(toks, cur, self.pos as int) == parse_member_spec(
                    toks,
                    obj,
                    old(self).pos as int,
                ),
            decreases self.tokens@.len() - self.pos,
        {
            if self.pos + 1 >= self.tokens.len() {
                return Err(ParseError::UnexpectedEnd);
            }
            let prop_span = self.tokens[self.pos + 1].span;
            let sym: String = match &self.tokens[self.pos + 1].kind {
                TokenKind::Ident(s) => s.clone(),
                _ => {
                    return Err(ParseError::UnexpectedToken { span: prop_span });
                },
            };
            let prop = Expr { span: prop_span, kind: ExprKind::Ident(sym) };
            let node = Expr {
                span: Span { lo: cur.span.lo, hi: prop_span.hi },
                kind: ExprKind::Member { obj: Box::new(cur), prop: Box::new(prop) },
            };
            cur = node;
            self.pos = self.pos + 2;
        }
        Ok(Box::new(cur))
    }

    /// LeftHandSideExpression, standing in for the collaborator below this
    /// core: literals, identifiers, member chains, parenthesized
    /// expressions and the arrow form a parenthesized head turns into.
    pub fn parse_lhs_expr(&mut self) -> (r: Result<Box<Expr>, ParseError>)
        requires
            old(self).wf(),
        ensures
            final(self).wf(),
            final(self).tokens == old(self).tokens,
            final(self).ctx == old(self).ctx,
            matches_expr_result(
                parse_lhs_spec(old(self).tokens@, old(self).ctx, old(self).pos as int),
                r,
                final(self).pos,
            ),
        decreases old(self).tokens@.len() - old(self).pos, 0int,
    {
        let ghost toks = self.tokens@;
        let ghost ctx0 = self.ctx;
        let ghost pos0 = self.pos as int;
        if self.pos >= self.tokens.len() {
            return Err(ParseError::UnexpectedEnd);
        }
        let tok_span = self.tokens[self.pos].span;
        let atom: Option<Expr> = match &self.tokens[self.pos].kind {
            TokenKind::Num(n) => Some(Expr { span: tok_span, kind: ExprKind::Num(*n) }),
            TokenKind::Str(s) => Some(Expr { span: tok_span, kind: ExprKind::Str(s.clone()) }),
            TokenKind::Ident(s) => Some(Expr { span: tok_span, kind: ExprKind::Ident(s.clone()) }),
            _ => None,
        };
        match atom {
            Some(a) => {
                proof {
                    assert(a == atom_expr(toks[pos0]));
                }
                self.pos = self.pos + 1;
                self.parse_member_chain(a)
            },
            None => {
                if !matches!(&self.tokens[self.pos].kind, TokenKind::LParen) {
                    return Err(ParseError::UnexpectedToken { span: tok_span });
                }
                self.pos = self.pos + 1;
                let inner = match self.parse_bin_expr() {
                    Ok(inner) => inner,
                    Err(e) => {
                        return Err(e);
                    },
                };
                proof {
                    lemma_bin_expr_progress(toks, ctx0, pos0 + 1);
                }
                if self.pos >= self.tokens.len() {
                    return Err(ParseError::UnexpectedEnd);
                }
                let close_span = self.tokens[self.pos].span;
                if !matches!(&self.tokens[self.pos].kind, TokenKind::RParen) {
                    return Err(ParseError::UnexpectedToken { span: close_span });
                }
                let paren = Expr {
                    span: Span { lo: tok_span.lo, hi: close_span.hi },
                    kind: ExprKind::Paren(inner),
                };
                self.pos = self.pos + 1;
                if self.pos < self.tokens.len() && matches!(
                    &self.tokens[self.pos].kind,
                    TokenKind::Arrow,
                ) {
                    self.pos = self.pos + 1;
                    let body = match self.parse_bin_expr() {
                        Ok(body) => body,
                        Err(e) => {
                            return Err(e);
                        },
                    };
                    let arrow = Expr {
                        span: Span { lo: tok_span.lo, hi: body.span.hi },
                        kind: ExprKind::Arrow { param: Box::new(paren), body },
                    };
                    Ok(Box::new(arrow))
                } else {
                    self.parse_member_chain(paren)
                }
            },
        }
    }

    /// AwaitExpression: `await` followed by a unary expression; `await *`
    /// is a dedicated syntax error. Callers reach this only inside an
    /// async context with the `await` keyword current.
    pub fn parse_await_expr(&mut self) -> (r: Result<Box<Expr>, ParseError>)
        requires
            old(self).wf(),
            old(self).pos < old(self).tokens.len(),
            old(self).tokens@[old(self).pos as int].kind is KwAwait,
            old(self).ctx.in_async,
        ensures
            final(self).wf(),
            final(self).tokens == old(self).tokens,
            final(self).ctx == old(self).ctx,
            matches_expr_result(
                parse_await_spec(old(self).tokens@, old(self).ctx, old(self).pos as int),
                r,
                final(self).pos,
            ),
        decreases old(self).tokens@.len() - old(self).pos, 0int,
    {
        let start_lo = self.tokens[self.pos].span.lo;
        if self.pos + 1 < self.tokens.len() {
            let star_span = self.tokens[self.pos + 1].span;
            if matches!(&self.tokens[self.pos + 1].kind, TokenKind::Op(BinaryOp::Mul)) {
                return Err(ParseError::AwaitGeneratorDelegation { span: star_span });
            }
        }
        self.pos = self.pos + 1;
        match self.parse_unary_expr() {
            Ok(arg) => {
                let sp = Span { lo: start_lo, hi: arg.span.hi };
                Ok(Box::new(Expr { span: sp, kind: ExprKind::Await { arg } }))
            },
            Err(e) => Err(e),
        }
    }

    /// UnaryExpression and UpdateExpression: prefix updates, unary
    /// operators, `await` when the context allows it, and otherwise a
    /// left-hand-side expression optionally followed by a postfix update
    /// on the same line (a line terminator before `++`/`--` leaves the
    /// operator for the next statement).
    pub fn parse_unary_expr(&mut self) -> (r: Result<Box<Expr>, ParseError>)
        requires
            old(self).wf(),
        ensures
            final(self).wf(),
            final(self).tokens == old(self).tokens,
            final(self).ctx == old(self).ctx,
            matches_expr_result(
                parse_unary_spec(old(self).tokens@, old(self).ctx, old(self).pos as int),
                r,
                final(self).pos,
            ),
        decreases old(self).tokens@.len() - old(self).pos, 1int,
    {
        let ghost toks = self.tokens@;
        let ghost ctx0 = self.ctx;
        let ghost pos0 = self.pos as int;
        if self.pos >= self.tokens.len() {
            return Err(ParseError::UnexpectedEnd);
        }
        let tok_span = self.tokens[self.pos].span;
        let upd: Option<UpdateOp> = match &self.tokens[self.pos].kind {
            TokenKind::PlusPlus => Some(UpdateOp::PlusPlus),
            TokenKind::MinusMinus => Some(UpdateOp::MinusMinus),
            _ => None,
        };
        match upd {
            Some(op) => {
                // prefix update: the operand must be a simple target
                self.pos = self.pos + 1;
                let arg = match self.parse_unary_expr() {
                    Ok(arg) => arg,
                    Err(e) => {
                        return Err(e);
                    },
                };
                if !is_simple_target(&arg, self.ctx.strict) {
                    return Err(ParseError::InvalidAssignmentTarget { span: arg.span });
                }
                let sp = Span { lo: tok_span.lo, hi: arg.span.hi };
                return Ok(Box::new(Expr { span: sp, kind: ExprKind::Update { op, prefix: true, arg } }));
            },
            None => {},
        }
        let una: Option<UnaryOp> = match &self.tokens[self.pos].kind {
            TokenKind::KwDelete => Some(UnaryOp::Delete),
            TokenKind::KwVoid => Some(UnaryOp::Void),
            TokenKind::KwTypeOf => Some(UnaryOp::TypeOf),
            TokenKind::Op(BinaryOp::Add) => Some(UnaryOp::Plus),
            TokenKind::Op(BinaryOp::Sub) => Some(UnaryOp::Minus),
            TokenKind::Tilde => Some(UnaryOp::Tilde),
            TokenKind::Bang => Some(UnaryOp::Bang),
            _ => None,
        };
        match una {
            Some(op) => {
                self.pos = self.pos + 1;
                let arg = match self.parse_unary_expr() {
                    Ok(arg) => arg,
                    Err(e) => {
                        return Err(e);
                    },
                };
                let sp = Span { lo: tok_span.lo, hi: arg.span.hi };
                return Ok(Box::new(Expr { span: sp, kind: ExprKind::Unary { op, arg } }));
            },
            None => {},
        }
        if self.ctx.in_async && matches!(&self.tokens[self.pos].kind, TokenKind::KwAwait) {
            return self.parse_await_expr();
        }
        let expr = match self.parse_lhs_expr() {
            Ok(expr) => expr,
            Err(e) => {
                return Err(e);
            },
        };
        if matches!(&expr.kind, ExprKind::Arrow { .. }) {
            // an arrow function is never the operand of a postfix update
            return Ok(expr);
        }
        // a line terminator before a postfix operator ends the expression
        if self.pos < self.tokens.len() && !self.tokens[self.pos].had_line_break {
            let post_span = self.tokens[self.pos].span;
            let post: Option<UpdateOp> = match &self.tokens[self.pos].kind {
                TokenKind::PlusPlus => Some(UpdateOp::PlusPlus),
                TokenKind::MinusMinus => Some(UpdateOp::MinusMinus),
                _ => None,
            };
            match post {
                Some(op) => {
                    if !is_simple_target(&expr, self.ctx.strict) {
                        return Err(ParseError::InvalidAssignmentTarget { span: expr.span });
                    }
                    self.pos = self.pos + 1;
                    let sp = Span { lo: expr.span.lo, hi: post_span.hi };
                    return Ok(
                        Box::new(Expr { span: sp, kind: ExprKind::Update { op, prefix: false, arg: expr } }),
                    );
                },
                None => {},
            }
        }
        Ok(expr)
    }

    /// The precedence-climbing engine. `left` is the already-parsed left
    /// operand; operators whose precedence is at most `min_prec` are left
    /// unconsumed for the caller to fold. Folding `**` onto a bare unary
    /// expression is the dedicated ambiguity error.
    pub fn parse_bin_op_recursively(&mut self, left: Box<Expr>, min_prec: u8) -> (r: Result<
        Box<Expr>,
        ParseError,
    >)
        requires
            old(self).wf(),
        ensures
            final(self).wf(),
            final(self).tokens == old(self).tokens,
            final(self).ctx == old(self).ctx,
            matches_expr_result(
                parse_bin_rec_spec(
                    old(self).tokens@,
                    old(self).ctx,
                    *left,
                    min_prec,
                    old(self).pos as int,
                ),
                r,
                final(self).pos,
            ),
        decreases old(self).tokens@.len() - old(self).pos, 2int,
    {
        let ghost toks = self.tokens@;
        let ghost ctx0 = self.ctx;
        let ghost pos0 = self.pos as int;
        if self.pos >= self.tokens.len() {
            // the stream is exhausted: hand `left` back
            return Ok(left);
        }
        let op = match bin_op_of(&self.tokens[self.pos].kind, self.ctx) {
            Some(op) => op,
            None => {
                return Ok(left);
            },
        };
        if op.precedence() <= min_prec {
            // defer this operator to a caller with a lower threshold
            return Ok(left);
        }
        self.pos = self.pos + 1;
        if matches!(&left.kind, ExprKind::Unary { .. }) && matches!(op, BinaryOp::Exp) {
            return Err(ParseError::AmbiguousExponentiation { left_span: left.span });
        }
        let right_start = match self.parse_unary_expr() {
            Ok(u) => u,
            Err(e) => {
                return Err(e);
            },
        };
        proof {
            lemma_unary_progress(toks, ctx0, pos0 + 1);
        }
        let ghost rs = *right_start;
        let climb = op.climb_min();
        let ghost uend = self.pos as int;
        let right = match self.parse_bin_op_recursively(right_start, climb) {
            Ok(x) => x,
            Err(e) => {
                return Err(e);
            },
        };
        proof {
            lemma_bin_rec_progress(toks, ctx0, rs, op.climb_min_spec(), uend);
        }
        let lo = left.span.lo;
        let node = Expr {
            span: Span { lo, hi: right.span.hi },
            kind: ExprKind::Bin { op, left, right },
        };
        self.parse_bin_op_recursively(Box::new(node), min_prec)
    }

    /// The expression entry point: a unary expression handed to the
    /// climbing engine at threshold 0; an arrow function is returned
    /// untouched. A returned tree covers exactly the consumed tokens,
    /// span for span at every node (`covers`).
    pub fn parse_bin_expr(&mut self) -> (r: Result<Box<Expr>, ParseError>)
        requires
            old(self).wf(),
        ensures
            final(self).wf(),
            final(self).tokens == old(self).tokens,
            final(self).ctx == old(self).ctx,
            matches_expr_result(
                parse_bin_expr_spec(old(self).tokens@, old(self).ctx, old(self).pos as int),
                r,
                final(self).pos,
            ),
            r matches Ok(b) ==> covers(
                *b,
                old(self).tokens@,
                old(self).pos as int,
                final(self).pos as int,
            ),
        decreases old(self).tokens@.len() - old(self).pos, 3int,
    {
        let ghost toks = self.tokens@;
        let ghost ctx0 = self.ctx;
        let ghost pos0 = self.pos as int;
        proof {
            lemma_bin_expr_covers(toks, ctx0, pos0);
        }
        let left = match self.parse_unary_expr() {
            Ok(left) => left,
            Err(e) => {
                return Err(e);
            },
        };
        if matches!(&left.kind, ExprKind::Arrow { .. }) {
            return Ok(left);
        }
        proof {
            lemma_unary_progress(toks, ctx0, pos0);
        }
        self.parse_bin_op_recursively(left, 0)
    }

    /// The entry point used wherever an expression is embedded in a
    /// declaration; the assignment and conditional layers above this core
    /// are collaborators, so here it is the binary-expression parse.
    pub fn parse_assignment_expr(&mut self) -> (r: Result<Box<Expr>, ParseError>)
        requires
            old(self).wf(),
        ensures
            final(self).wf(),
            final(self).tokens == old(self).tokens,
            final(self).ctx == old(self).ctx,
            matches_expr_result(
                parse_bin_expr_spec(old(self).tokens@, old(self).ctx, old(self).pos as int),
                r,
                final(self).pos,
            ),
    {
        self.parse_bin_expr()
    }
}

} // verus!
