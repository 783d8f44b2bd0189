//! Parsing of module-level `import` and `export` declarations: their data
//! model, the definitional interpreter for their grammar, and the
//! executable methods proved against it. Class, function and variable
//! declaration forms of `export` belong to statement-level collaborator
//! parsers and are rejected here as unexpected tokens.

use vstd::prelude::*;
use crate::ast::{BinaryOp, Expr, Ident, Span};
use crate::context::Context;
use crate::error::ParseError;
use crate::grammar::{Parse, parse_bin_expr_spec};
use crate::parser::Parser;
use crate::token::{Token, TokenKind};

verus! {

/// What one import specifier binds.
#[derive(Debug, PartialEq, Eq)]
pub enum ImportSpecifierKind {
    /// `import local from '...'`.
    Default,
    /// `import * as local from '...'`.
    Namespace,
    /// `import { orig }` or `import { orig as local }`; `imported` is the
    /// original name when it differs from the local one.
    Specific { imported: Option<Ident> },
}

/// One specifier of an `import` declaration.
#[derive(Debug, PartialEq, Eq)]
pub struct ImportSpecifier {
    pub span: Span,
    pub local: Ident,
    pub kind: ImportSpecifierKind,
}

/// One `orig` or `orig as exported` entry of an `export { ... }` clause.
#[derive(Debug, PartialEq, Eq)]
pub struct ExportSpecifier {
    pub orig: Ident,
    pub exported: Option<Ident>,
}

/// A module-level declaration owned by this layer.
#[derive(Debug, PartialEq, Eq)]
pub enum ModuleDeclKind {
    Import { specifiers: Vec<ImportSpecifier>, src: String },
    ExportAll { src: String },
    ExportDefaultExpr(Box<Expr>),
    ExportNamed { specifiers: Vec<ExportSpecifier>, src: Option<String> },
}

/// A module-level declaration with its source extent.
#[derive(Debug, PartialEq, Eq)]
pub struct ModuleDecl {
    pub span: Span,
    pub kind: ModuleDeclKind,
}

/// The ghost shape of a parsed `export` declaration; the executable result
/// holds the same data with the specifier sequence in a `Vec`.
pub enum ExportShape {
    All { src: String },
    DefaultExpr { expr: Expr },
    Named { specifiers: Seq<ExportSpecifier>, src: Option<String> },
}

/// Whether a word may not serve as a binding or plain import name.
pub open spec fn is_reserved_word_spec(sym: Seq<char>) -> bool {
    ||| sym == "in"@
    ||| sym == "instanceof"@
    ||| sym == "typeof"@
    ||| sym == "void"@
    ||| sym == "delete"@
    ||| sym == "default"@
    ||| sym == "import"@
    ||| sym == "export"@
    ||| sym == "class"@
    ||| sym == "function"@
    ||| sym == "var"@
    ||| sym == "const"@
    ||| sym == "new"@
    ||| sym == "return"@
    ||| sym == "if"@
    ||| sym == "else"@
    ||| sym == "for"@
    ||| sym == "while"@
    ||| sym == "this"@
}

/// Whether `s` equals the string literal `w` views as.
fn word_eq(s: &String, w: &str) -> (r: bool)
    ensures
        r == (s@ == w@),
{
    let word: String = w.to_owned();
    s.eq(&word)
}

/// Executable reserved-word check mirroring `is_reserved_word_spec`.
pub fn is_reserved_word(s: &String) -> (r: bool)
    ensures
        r == is_reserved_word_spec(s@),
{
    word_eq(s, "in") || word_eq(s, "instanceof") || word_eq(s, "typeof") || word_eq(s, "void")
        || word_eq(s, "delete") || word_eq(s, "default") || word_eq(s, "import") || word_eq(
        s,
        "export",
    ) || word_eq(s, "class") || word_eq(s, "function") || word_eq(s, "var") || word_eq(s, "const")
        || word_eq(s, "new") || word_eq(s, "return") || word_eq(s, "if") || word_eq(s, "else")
        || word_eq(s, "for") || word_eq(s, "while") || word_eq(s, "this")
}

/// How an executable result relates to an interpreter outcome carrying a
/// plain value.
pub open spec fn matches_parse<T>(res: Parse<T>, r: Result<T, ParseError>, endpos: usize) -> bool {
    match res {
        Parse::Done { v, end } => r matches Ok(x) && x == v && endpos as int == end,
        Parse::Fail { err } => r matches Err(e) && e == err,
    }
}

/// IdentifierName: any identifier token, with no reservation check.
pub open spec fn parse_ident_name_spec(toks: Seq<Token>, pos: int) -> Parse<Ident> {
    if pos < 0 || pos >= toks.len() {
        Parse::Fail { err: ParseError::UnexpectedEnd }
    } else {
        match toks[pos].kind {
            TokenKind::Ident(s) => Parse::Done {
                v: Ident { span: toks[pos].span, sym: s },
                end: pos + 1,
            },
            _ => Parse::Fail { err: ParseError::UnexpectedToken { span: toks[pos].span } },
        }
    }
}

/// BindingIdentifier: an identifier name that is not reserved, nor `await`
/// inside an async context, nor `yield` inside a generator.
pub open spec fn parse_binding_ident_spec(toks: Seq<Token>, ctx: Context, pos: int) -> Parse<
    Ident,
> {
    match parse_ident_name_spec(toks, pos) {
        Parse::Done { v: id, end } => {
            if is_reserved_word_spec(id.sym@) || (ctx.in_async && id.sym@ == "await"@) || (
            ctx.in_generator && id.sym@ == "yield"@) {
                Parse::Fail { err: ParseError::UnexpectedToken { span: id.span } }
            } else {
                Parse::Done { v: id, end }
            }
        },
        f => f,
    }
}

/// The context an imported binding is parsed under: outside any async or
/// generator body, whatever surrounds the declaration.
pub open spec fn import_binding_ctx(ctx: Context) -> Context {
    Context {
        include_in_expr: ctx.include_in_expr,
        in_async: false,
        in_generator: false,
        strict: ctx.strict,
    }
}

/// `orig` or `orig as local` inside `import { ... }`; a plain entry may
/// not be a reserved word.
pub open spec fn parse_import_specifier_spec(toks: Seq<Token>, ctx: Context, pos: int) -> Parse<
    ImportSpecifier,
> {
    match parse_ident_name_spec(toks, pos) {
        Parse::Done { v: orig, end: p1 } => {
            if p1 < toks.len() && toks[p1].kind is KwAs {
                match parse_binding_ident_spec(toks, ctx, p1 + 1) {
                    Parse::Done { v: local, end: p2 } => Parse::Done {
                        v: ImportSpecifier {
                            span: Span { lo: orig.span.lo, hi: local.span.hi },
                            local,
                            kind: ImportSpecifierKind::Specific { imported: Some(orig) },
                        },
                        end: p2,
                    },
                    Parse::Fail { err } => Parse::Fail { err },
                }
            } else if is_reserved_word_spec(orig.sym@) {
                Parse::Fail { err: ParseError::UnexpectedToken { span: orig.span } }
            } else {
                Parse::Done {
                    v: ImportSpecifier {
                        span: orig.span,
                        local: orig,
                        kind: ImportSpecifierKind::Specific { imported: None },
                    },
                    end: p1,
                }
            }
        },
        Parse::Fail { err } => Parse::Fail { err },
    }
}

/// `from 'source' ;` closing an import or re-export declaration; yields
/// the source string.
pub open spec fn parse_from_clause_spec(toks: Seq<Token>, pos: int) -> Parse<String> {
    if pos < 0 || pos >= toks.len() {
        Parse::Fail { err: ParseError::UnexpectedEnd }
    } else if !(toks[pos].kind is KwFrom) {
        Parse::Fail { err: ParseError::UnexpectedToken { span: toks[pos].span } }
    } else if pos + 1 >= toks.len() {
        Parse::Fail { err: ParseError::UnexpectedEnd }
    } else {
        match toks[pos + 1].kind {
            TokenKind::Str(value) => {
                if pos + 2 >= toks.len() {
                    Parse::Fail { err: ParseError::UnexpectedEnd }
                } else if toks[pos + 2].kind is Semi {
                    Parse::Done { v: value, end: pos + 3 }
                } else {
                    Parse::Fail { err: ParseError::UnexpectedToken { span: toks[pos + 2].span } }
                }
            },
            _ => Parse::Fail { err: ParseError::UnexpectedToken { span: toks[pos + 1].span } },
        }
    }
}

/// A successful specifier parse starts inside the sequence and consumes at
/// least one token.
pub proof fn lemma_import_specifier_progress(toks: Seq<Token>, ctx: Context, pos: int)
    ensures
        parse_import_specifier_spec(toks, ctx, pos) matches Parse::Done { v, end } ==> 0 <= pos
            < end <= toks.len(),
{
}

/// The entries of `import { ... }` after the opening brace: specifiers
/// separated by commas (a trailing comma is allowed), closed by `}`; the
/// consumed entries are appended to `acc`.
pub open spec fn parse_import_specs_spec(
    toks: Seq<Token>,
    ctx: Context,
    pos: int,
    first: bool,
    acc: Seq<ImportSpecifier>,
) -> Parse<Seq<ImportSpecifier>>
    decreases toks.len() - pos,
{
    if pos < 0 || pos >= toks.len() {
        Parse::Fail { err: ParseError::UnexpectedEnd }
    } else if toks[pos].kind is RBrace {
        Parse::Done { v: acc, end: pos + 1 }
    } else if !first && toks[pos].kind is Comma {
        if pos + 1 < toks.len() && toks[pos + 1].kind is RBrace {
            Parse::Done { v: acc, end: pos + 2 }
        } else {
            match parse_import_specifier_spec(toks, ctx, pos + 1) {
                Parse::Done { v: s, end: p } => {
                    if !(pos + 1 < p <= toks.len()) {
                        // progress guard (vacuous, see lemma_import_specifier_progress)
                        Parse::Fail { err: ParseError::UnexpectedEnd }
                    } else {
                        parse_import_specs_spec(toks, ctx, p, false, acc.push(s))
                    }
                },
                Parse::Fail { err } => Parse::Fail { err },
            }
        }
    } else {
        match parse_import_specifier_spec(toks, ctx, pos) {
            Parse::Done { v: s, end: p } => {
                if !(pos < p <= toks.len()) {
                    // progress guard (vacuous)
                    Parse::Fail { err: ParseError::UnexpectedEnd }
                } else {
                    parse_import_specs_spec(toks, ctx, p, false, acc.push(s))
                }
            },
            Parse::Fail { err } => Parse::Fail { err },
        }
    }
}

/// The specifier part of an `import` declaration after any default
/// binding: a `* as local` namespace clause, a braced list, or nothing.
pub open spec fn parse_import_group_spec(
    toks: Seq<Token>,
    ctx: Context,
    pos: int,
    acc: Seq<ImportSpecifier>,
) -> Parse<Seq<ImportSpecifier>> {
    if 0 <= pos && pos < toks.len() && toks[pos].kind == TokenKind::Op(BinaryOp::Mul) {
        if pos + 1 < toks.len() && toks[pos + 1].kind is KwAs {
            match parse_binding_ident_spec(toks, import_binding_ctx(ctx), pos + 2) {
                Parse::Done { v: local, end: p } => Parse::Done {
                    v: acc.push(
                        ImportSpecifier {
                            span: Span { lo: toks[pos].span.lo, hi: local.span.hi },
                            local,
                            kind: ImportSpecifierKind::Namespace,
                        },
                    ),
                    end: p,
                },
                Parse::Fail { err } => Parse::Fail { err },
            }
        } else if pos + 1 < toks.len() {
            Parse::Fail { err: ParseError::UnexpectedToken { span: toks[pos + 1].span } }
        } else {
            Parse::Fail { err: ParseError::UnexpectedEnd }
        }
    } else if 0 <= pos && pos < toks.len() && toks[pos].kind is LBrace {
        parse_import_specs_spec(toks, ctx, pos + 1, true, acc)
    } else {
        Parse::Done { v: acc, end: pos }
    }
}

/// The full specifier clause of an `import` declaration: an optional
/// default binding (followed by `from` or a comma), then the group part.
pub open spec fn parse_import_clause_spec(toks: Seq<Token>, ctx: Context, pos: int) -> Parse<
    Seq<ImportSpecifier>,
> {
    if 0 <= pos && pos < toks.len() && toks[pos].kind is Ident {
        match parse_binding_ident_spec(toks, import_binding_ctx(ctx), pos) {
            Parse::Done { v: local, end: q } => {
                let def = ImportSpecifier {
                    span: local.span,
                    local,
                    kind: ImportSpecifierKind::Default,
                };
                if q < toks.len() && toks[q].kind is KwFrom {
                    Parse::Done { v: seq![def], end: q }
                } else if q < toks.len() && toks[q].kind is Comma {
                    parse_import_group_spec(toks, ctx, q + 1, seq![def])
                } else if q < toks.len() {
                    Parse::Fail { err: ParseError::UnexpectedToken { span: toks[q].span } }
                } else {
                    Parse::Fail { err: ParseError::UnexpectedEnd }
                }
            },
            Parse::Fail { err } => Parse::Fail { err },
        }
    } else {
        parse_import_group_spec(toks, ctx, pos, Seq::empty())
    }
}

/// A whole `import` declaration starting at `pos`: either
/// `import 'source';` or a specifier clause followed by the from clause.
/// Yields the declaration's span, its specifiers, and the source string.
pub open spec fn parse_import_decl_spec(toks: Seq<Token>, ctx: Context, pos: int) -> Parse<
    (Span, Seq<ImportSpecifier>, String),
> {
    if pos < 0 || pos >= toks.len() {
        Parse::Fail { err: ParseError::UnexpectedEnd }
    } else if !(toks[pos].kind is KwImport) {
        Parse::Fail { err: ParseError::UnexpectedToken { span: toks[pos].span } }
    } else if pos + 1 >= toks.len() {
        Parse::Fail { err: ParseError::UnexpectedEnd }
    } else {
        let start = toks[pos].span.lo;
        match toks[pos + 1].kind {
            TokenKind::Str(value) => {
                if pos + 2 >= toks.len() {
                    Parse::Fail { err: ParseError::UnexpectedEnd }
                } else if toks[pos + 2].kind is Semi {
                    Parse::Done {
                        v: (
                            Span { lo: start, hi: toks[pos + 2].span.hi },
                            Seq::empty(),
                            value,
                        ),
                        end: pos + 3,
                    }
                } else {
                    Parse::Fail { err: ParseError::UnexpectedToken { span: toks[pos + 2].span } }
                }
            },
            _ => match parse_import_clause_spec(toks, ctx, pos + 1) {
                Parse::Done { v: specs, end: q } => match parse_from_clause_spec(toks, q) {
                    Parse::Done { v: src, end: f } => Parse::Done {
                        v: (Span { lo: start, hi: toks[f - 1].span.hi }, specs, src),
                        end: f,
                    },
                    Parse::Fail { err } => Parse::Fail { err },
                },
                Parse::Fail { err } => Parse::Fail { err },
            },
        }
    }
}

/// `orig` or `orig as exported` inside `export { ... }`.
pub open spec fn parse_export_specifier_spec(toks: Seq<Token>, pos: int) -> Parse<
    ExportSpecifier,
> {
    match parse_ident_name_spec(toks, pos) {
        Parse::Done { v: orig, end: p1 } => {
            if p1 < toks.len() && toks[p1].kind is KwAs {
                match parse_ident_name_spec(toks, p1 + 1) {
                    Parse::Done { v: exported, end: p2 } => Parse::Done {
                        v: ExportSpecifier { orig, exported: Some(exported) },
                        end: p2,
                    },
                    Parse::Fail { err } => Parse::Fail { err },
                }
            } else {
                Parse::Done { v: ExportSpecifier { orig, exported: None }, end: p1 }
            }
        },
        Parse::Fail { err } => Parse::Fail { err },
    }
}

/// A successful export-specifier parse starts inside the sequence and
/// consumes at least one token.
pub proof fn lemma_export_specifier_progress(toks: Seq<Token>, pos: int)
    ensures
        parse_export_specifier_spec(toks, pos) matches Parse::Done { v, end } ==> 0 <= pos < end
            <= toks.len(),
{
}

/// The entries of `export { ... }` after the opening brace: the loop runs
/// while a comma or an identifier is current, then the closing brace is
/// required.
pub open spec fn parse_export_specs_spec(
    toks: Seq<Token>,
    pos: int,
    first: bool,
    acc: Seq<ExportSpecifier>,
) -> Parse<Seq<ExportSpecifier>>
    decreases toks.len() - pos,
{
    if pos < 0 || pos >= toks.len() {
        Parse::Fail { err: ParseError::UnexpectedEnd }
    } else if toks[pos].kind is Comma || toks[pos].kind is Ident {
        if !first && toks[pos].kind is Comma {
            if pos + 1 < toks.len() && toks[pos + 1].kind is RBrace {
                Parse::Done { v: acc, end: pos + 2 }
            } else {
                match parse_export_specifier_spec(toks, pos + 1) {
                    Parse::Done { v: s, end: p } => {
                        if !(pos + 1 < p <= toks.len()) {
                            // progress guard (vacuous)
                            Parse::Fail { err: ParseError::UnexpectedEnd }
                        } else {
                            parse_export_specs_spec(toks, p, false, acc.push(s))
                        }
                    },
                    Parse::Fail { err } => Parse::Fail { err },
                }
            }
        } else {
            match parse_export_specifier_spec(toks, pos) {
                Parse::Done { v: s, end: p } => {
                    if !(pos < p <= toks.len()) {
                        // progress guard (vacuous)
                        Parse::Fail { err: ParseError::UnexpectedEnd }
                    } else {
                        parse_export_specs_spec(toks, p, false, acc.push(s))
                    }
                },
                Parse::Fail { err } => Parse::Fail { err },
            }
        }
    } else if toks[pos].kind is RBrace {
        Parse::Done { v: acc, end: pos + 1 }
    } else {
        Parse::Fail { err: ParseError::UnexpectedToken { span: toks[pos].span } }
    }
}

/// A successful specifier-list parse moves past at least the closing
/// brace and stays inside the token sequence.
pub proof fn lemma_export_specs_progress(
    toks: Seq<Token>,
    pos: int,
    first: bool,
    acc: Seq<ExportSpecifier>,
)
    ensures
        parse_export_specs_spec(toks, pos, first, acc) matches Parse::Done { v, end } ==> pos < end
            <= toks.len(),
    decreases toks.len() - pos,
{
    if pos < 0 || pos >= toks.len() {
    } else if toks[pos].kind is Comma || toks[pos].kind is Ident {
        if !first && toks[pos].kind is Comma {
            if pos + 1 < toks.len() && toks[pos + 1].kind is RBrace {
            } else {
                match parse_export_specifier_spec(toks, pos + 1) {
                    Parse::Done { v: s, end: p } => {
                        if pos + 1 < p <= toks.len() {
                            lemma_export_specs_progress(toks, p, false, acc.push(s));
                        }
                    },
                    Parse::Fail { .. } => {},
                }
            }
        } else {
            match parse_export_specifier_spec(toks, pos) {
                Parse::Done { v: s, end: p } => {
                    if pos < p <= toks.len() {
                        lemma_export_specs_progress(toks, p, false, acc.push(s));
                    }
                },
                Parse::Fail { .. } => {},
            }
        }
    }
}

/// The context an exported default expression is parsed under: `in` is a
/// valid operator there.
pub open spec fn export_expr_ctx(ctx: Context) -> Context {
    Context {
        include_in_expr: true,
        in_async: ctx.in_async,
        in_generator: ctx.in_generator,
        strict: ctx.strict,
    }
}

/// A whole `export` declaration starting at `pos`: `export * from ...;`,
/// `export default <expression>;`, or `export { ... } [from ...;]`.
/// The class, function and variable forms belong to statement-level
/// collaborators and fail here as unexpected tokens.
pub open spec fn parse_export_decl_spec(toks: Seq<Token>, ctx: Context, pos: int) -> Parse<
    (Span, ExportShape),
> {
    if pos < 0 || pos >= toks.len() {
        Parse::Fail { err: ParseError::UnexpectedEnd }
    } else if !(toks[pos].kind is KwExport) {
        Parse::Fail { err: ParseError::UnexpectedToken { span: toks[pos].span } }
    } else if pos + 1 >= toks.len() {
        Parse::Fail { err: ParseError::UnexpectedEnd }
    } else {
        let start = toks[pos].span.lo;
        let p = pos + 1;
        if toks[p].kind == TokenKind::Op(BinaryOp::Mul) {
            match parse_from_clause_spec(toks, p + 1) {
                Parse::Done { v: src, end: f } => Parse::Done {
                    v: (
                        Span { lo: start, hi: toks[f - 1].span.hi },
                        ExportShape::All { src },
                    ),
                    end: f,
                },
                Parse::Fail { err } => Parse::Fail { err },
            }
        } else if toks[p].kind is KwDefault {
            match parse_bin_expr_spec(toks, export_expr_ctx(ctx), p + 1) {
                Parse::Done { v: expr, end: q } => {
                    if q < toks.len() && toks[q].kind is Semi {
                        Parse::Done {
                            v: (
                                Span { lo: start, hi: toks[q].span.hi },
                                ExportShape::DefaultExpr { expr },
                            ),
                            end: q + 1,
                        }
                    } else if q < toks.len() {
                        Parse::Fail { err: ParseError::UnexpectedToken { span: toks[q].span } }
                    } else {
                        Parse::Fail { err: ParseError::UnexpectedEnd }
                    }
                },
                Parse::Fail { err } => Parse::Fail { err },
            }
        } else if toks[p].kind is LBrace {
            match parse_export_specs_spec(toks, p + 1, true, Seq::empty()) {
                Parse::Done { v: specs, end: q } => {
                    if q < toks.len() && toks[q].kind is KwFrom {
                        match parse_from_clause_spec(toks, q) {
                            Parse::Done { v: src, end: f } => Parse::Done {
                                v: (
                                    Span { lo: start, hi: toks[f - 1].span.hi },
                                    ExportShape::Named { specifiers: specs, src: Some(src) },
                                ),
                                end: f,
                            },
                            Parse::Fail { err } => Parse::Fail { err },
                        }
                    } else {
                        Parse::Done {
                            v: (
                                Span { lo: start, hi: toks[q - 1].span.hi },
                                ExportShape::Named { specifiers: specs, src: None },
                            ),
                            end: q,
                        }
                    }
                },
                Parse::Fail { err } => Parse::Fail { err },
            }
        } else {
            Parse::Fail { err: ParseError::UnexpectedToken { span: toks[p].span } }
        }
    }
}

/// How an executable import result relates to the interpreter outcome.
pub open spec fn import_decl_matches(
    toks: Seq<Token>,
    ctx: Context,
    pos: int,
    r: Result<ModuleDecl, ParseError>,
    endpos: usize,
) -> bool {
    match parse_import_decl_spec(toks, ctx, pos) {
        Parse::Done { v, end } => r matches Ok(d) && d.span == v.0 && (
        d.kind matches ModuleDeclKind::Import { specifiers, src } && specifiers@ == v.1 && src
            == v.2) && endpos as int == end,
        Parse::Fail { err } => r matches Err(e) && e == err,
    }
}

/// Whether an executable declaration kind carries the same data as a ghost
/// export shape.
pub open spec fn export_shape_matches(shape: ExportShape, kind: ModuleDeclKind) -> bool {
    match shape {
        ExportShape::All { src } => kind matches ModuleDeclKind::ExportAll { src: s } && s == src,
        ExportShape::DefaultExpr { expr } => kind matches ModuleDeclKind::ExportDefaultExpr(b)
            && *b == expr,
        ExportShape::Named { specifiers, src } => kind matches ModuleDeclKind::ExportNamed {
            specifiers: v,
            src: s,
        } && v@ == specifiers && s == src,
    }
}

/// How an executable export result relates to the interpreter outcome.
pub open spec fn export_decl_matches(
    toks: Seq<Token>,
    ctx: Context,
    pos: int,
    r: Result<ModuleDecl, ParseError>,
    endpos: usize,
) -> bool {
    match parse_export_decl_spec(toks, ctx, pos) {
        Parse::Done { v, end } => r matches Ok(d) && d.span == v.0 && export_shape_matches(
            v.1,
            d.kind,
        ) && endpos as int == end,
        Parse::Fail { err } => r matches Err(e) && e == err,
    }
}

impl Parser {
    /// IdentifierName: any identifier token.
    pub fn parse_ident_name(&mut self) -> (r: Result<Ident, ParseError>)
        requires
            old(self).wf(),
        ensures
            final(self).wf(),
            final(self).tokens == old(self).tokens,
            final(self).ctx == old(self).ctx,
            matches_parse(
                parse_ident_name_spec(old(self).tokens@, old(self).pos as int),
                r,
                final(self).pos,
            ),
    {
        if self.pos >= self.tokens.len() {
            return Err(ParseError::UnexpectedEnd);
        }
        let span = self.tokens[self.pos].span;
        match &self.tokens[self.pos].kind {
            TokenKind::Ident(s) => {
                let sym = s.clone();
                self.pos = self.pos + 1;
                Ok(Ident { span, sym })
            },
            _ => Err(ParseError::UnexpectedToken { span }),
        }
    }

    /// BindingIdentifier: an identifier name that is not reserved, nor
    /// `await` in an async context, nor `yield` in a generator.
    pub fn parse_binding_ident(&mut self) -> (r: Result<Ident, ParseError>)
        requires
            old(self).wf(),
        ensures
            final(self).wf(),
            final(self).tokens == old(self).tokens,
            final(self).ctx == old(self).ctx,
            matches_parse(
                parse_binding_ident_spec(old(self).tokens@, old(self).ctx, old(self).pos as int),
                r,
                final(self).pos,
            ),
    {
        let id = match self.parse_ident_name() {
            Ok(id) => id,
            Err(e) => {
                return Err(e);
            },
        };
        if is_reserved_word(&id.sym) || (self.ctx.in_async && word_eq(&id.sym, "await")) || (
        self.ctx.in_generator && word_eq(&id.sym, "yield")) {
            return Err(ParseError::UnexpectedToken { span: id.span });
        }
        Ok(id)
    }

    /// An imported binding is parsed outside any async or generator body:
    /// the surrounding context is overridden for this one sub-parse and
    /// restored afterwards.
    pub fn parse_imported_binding(&mut self) -> (r: Result<Ident, ParseError>)
        requires
            old(self).wf(),
        ensures
            final(self).wf(),
            final(self).tokens == old(self).tokens,
            final(self).ctx == old(self).ctx,
            matches_parse(
                parse_binding_ident_spec(
                    old(self).tokens@,
                    import_binding_ctx(old(self).ctx),
                    old(self).pos as int,
                ),
                r,
                final(self).pos,
            ),
    {
        let saved = self.ctx;
        self.ctx = Context {
            include_in_expr: saved.include_in_expr,
            in_async: false,
            in_generator: false,
            strict: saved.strict,
        };
        let r = self.parse_binding_ident();
        self.ctx = saved;
        r
    }

    /// The binding of `import local from ...`.
    pub fn parse_imported_default_binding(&mut self) -> (r: Result<Ident, ParseError>)
        requires
            old(self).wf(),
        ensures
            final(self).wf(),
            final(self).tokens == old(self).tokens,
            final(self).ctx == old(self).ctx,
            matches_parse(
                parse_binding_ident_spec(
                    old(self).tokens@,
                    import_binding_ctx(old(self).ctx),
                    old(self).pos as int,
                ),
                r,
                final(self).pos,
            ),
    {
        self.parse_imported_binding()
    }

    /// `orig` or `orig as local` in `import { orig, orig2 as local }`.
    pub fn parse_import_specifier(&mut self) -> (r: Result<ImportSpecifier, ParseError>)
        requires
            old(self).wf(),
        ensures
            final(self).wf(),
            final(self).tokens == old(self).tokens,
            final(self).ctx == old(self).ctx,
            matches_parse(
                parse_import_specifier_spec(
                    old(self).tokens@,
                    old(self).ctx,
                    old(self).pos as int,
                ),
                r,
                final(self).pos,
            ),
    {
        let orig = match self.parse_ident_name() {
            Ok(orig) => orig,
            Err(e) => {
                return Err(e);
            },
        };
        if self.pos < self.tokens.len() && matches!(&self.tokens[self.pos].kind, TokenKind::KwAs) {
            self.pos = self.pos + 1;
            let local = match self.parse_binding_ident() {
                Ok(local) => local,
                Err(e) => {
                    return Err(e);
                },
            };
            let sp = Span { lo: orig.span.lo, hi: local.span.hi };
            return Ok(
                ImportSpecifier {
                    span: sp,
                    local,
                    kind: ImportSpecifierKind::Specific { imported: Some(orig) },
                },
            );
        }
        if is_reserved_word(&orig.sym) {
            return Err(ParseError::UnexpectedToken { span: orig.span });
        }
        Ok(
            ImportSpecifier {
                span: orig.span,
                local: orig,
                kind: ImportSpecifierKind::Specific { imported: None },
            },
        )
    }

    /// `from 'source' ;` closing an import or re-export declaration.
    pub fn parse_from_clause_and_semi(&mut self) -> (r: Result<String, ParseError>)
        requires
            old(self).wf(),
        ensures
            final(self).wf(),
            final(self).tokens == old(self).tokens,
            final(self).ctx == old(self).ctx,
            matches_parse(
                parse_from_clause_spec(old(self).tokens@, old(self).pos as int),
                r,
                final(self).pos,
            ),
    {
        if self.pos >= self.tokens.len() {
            return Err(ParseError::UnexpectedEnd);
        }
        if !matches!(&self.tokens[self.pos].kind, TokenKind::KwFrom) {
            return Err(ParseError::UnexpectedToken { span: self.tokens[self.pos].span });
        }
        if self.pos + 1 >= self.tokens.len() {
            return Err(ParseError::UnexpectedEnd);
        }
        let value: String = match &self.tokens[self.pos + 1].kind {
            TokenKind::Str(s) => s.clone(),
            _ => {
                return Err(ParseError::UnexpectedToken { span: self.tokens[self.pos + 1].span });
            },
        };
        if self.pos + 2 >= self.tokens.len() {
            return Err(ParseError::UnexpectedEnd);
        }
        if !matches!(&self.tokens[self.pos + 2].kind, TokenKind::Semi) {
            return Err(ParseError::UnexpectedToken { span: self.tokens[self.pos + 2].span });
        }
        self.pos = self.pos + 3;
        Ok(value)
    }

    /// The entries of `import { ... }` after the opening brace, appended to
    /// `specifiers`.
    fn parse_import_specs(&mut self, specifiers: &mut Vec<ImportSpecifier>, first: bool) -> (r:
        Result<(), ParseError>)
        requires
            old(self).wf(),
        ensures
            final(self).wf(),
            final(self).tokens == old(self).tokens,
            final(self).ctx == old(self).ctx,
            match parse_import_specs_spec(
                old(self).tokens@,
                old(self).ctx,
                old(self).pos as int,
                first,
                old(specifiers)@,
            ) {
                Parse::Done { v, end } => r is Ok && final(specifiers)@ == v && final(self).pos
                    as int == end,
                Parse::Fail { err } => r matches Err(e) && e == err,
            },
        decreases old(self).tokens@.len() - old(self).pos,
    {
        let ghost toks = self.tokens@;
        let ghost ctx0 = self.ctx;
        let ghost pos0 = self.pos as int;
        if self.pos >= self.tokens.len() {
            return Err(ParseError::UnexpectedEnd);
        }
        if matches!(&self.tokens[self.pos].kind, TokenKind::RBrace) {
            self.pos = self.pos + 1;
            return Ok(());
        }
        if !first && matches!(&self.tokens[self.pos].kind, TokenKind::Comma) {
            if self.pos + 1 < self.tokens.len() && matches!(
                &self.tokens[self.pos + 1].kind,
                TokenKind::RBrace,
            ) {
                self.pos = self.pos + 2;
                return Ok(());
            }
            self.pos = self.pos + 1;
        }
        let s = match self.parse_import_specifier() {
            Ok(s) => s,
            Err(e) => {
                return Err(e);
            },
        };
        proof {
            lemma_import_specifier_progress(toks, ctx0, pos0);
            lemma_import_specifier_progress(toks, ctx0, pos0 + 1);
        }
        specifiers.push(s);
        self.parse_import_specs(specifiers, false)
    }

    /// The `* as local` or `{ ... }` part of an import clause, appended to
    /// `specifiers`.
    fn parse_import_group(&mut self, specifiers: &mut Vec<ImportSpecifier>) -> (r: Result<
        (),
        ParseError,
    >)
        requires
            old(self).wf(),
        ensures
            final(self).wf(),
            final(self).tokens == old(self).tokens,
            final(self).ctx == old(self).ctx,
            match parse_import_group_spec(
                old(self).tokens@,
                old(self).ctx,
                old(self).pos as int,
                old(specifiers)@,
            ) {
                Parse::Done { v, end } => r is Ok && final(specifiers)@ == v && final(self).pos
                    as int == end,
                Parse::Fail { err } => r matches Err(e) && e == err,
            },
    {
        if self.pos < self.tokens.len() && matches!(
            &self.tokens[self.pos].kind,
            TokenKind::Op(BinaryOp::Mul),
        ) {
            let star_lo = self.tokens[self.pos].span.lo;
            if self.pos + 1 >= self.tokens.len() {
                return Err(ParseError::UnexpectedEnd);
            }
            if !matches!(&self.tokens[self.pos + 1].kind, TokenKind::KwAs) {
                return Err(ParseError::UnexpectedToken { span: self.tokens[self.pos + 1].span });
            }
            self.pos = self.pos + 2;
            let local = match self.parse_imported_binding() {
                Ok(local) => local,
                Err(e) => {
                    return Err(e);
                },
            };
            let sp = Span { lo: star_lo, hi: local.span.hi };
            specifiers.push(
                ImportSpecifier { span: sp, local, kind: ImportSpecifierKind::Namespace },
            );
            return Ok(());
        }
        if self.pos < self.tokens.len() && matches!(&self.tokens[self.pos].kind, TokenKind::LBrace) {
            self.pos = self.pos + 1;
            return self.parse_import_specs(specifiers, true);
        }
        Ok(())
    }

    /// A whole `import` declaration: `import 'source';` or a specifier
    /// clause followed by `from 'source';`.
    pub fn parse_import(&mut self) -> (r: Result<ModuleDecl, ParseError>)
        requires
            old(self).wf(),
            old(self).pos < old(self).tokens.len(),
            old(self).tokens@[old(self).pos as int].kind is KwImport,
        ensures
            final(self).wf(),
            final(self).tokens == old(self).tokens,
            final(self).ctx == old(self).ctx,
            import_decl_matches(
                old(self).tokens@,
                old(self).ctx,
                old(self).pos as int,
                r,
                final(self).pos,
            ),
    {
        let ghost toks = self.tokens@;
        let ghost ctx0 = self.ctx;
        let ghost pos0 = self.pos as int;
        let start_lo = self.tokens[self.pos].span.lo;
        self.pos = self.pos + 1;
        if self.pos >= self.tokens.len() {
            return Err(ParseError::UnexpectedEnd);
        }
        // `import 'source';`
        let str_src: Option<String> = match &self.tokens[self.pos].kind {
            TokenKind::Str(s) => Some(s.clone()),
            _ => None,
        };
        match str_src {
            Some(value) => {
                if self.pos + 1 >= self.tokens.len() {
                    return Err(ParseError::UnexpectedEnd);
                }
                let semi_span = self.tokens[self.pos + 1].span;
                if !matches!(&self.tokens[self.pos + 1].kind, TokenKind::Semi) {
                    return Err(ParseError::UnexpectedToken { span: semi_span });
                }
                self.pos = self.pos + 2;
                return Ok(
                    ModuleDecl {
                        span: Span { lo: start_lo, hi: semi_span.hi },
                        kind: ModuleDeclKind::Import { specifiers: Vec::new(), src: value },
                    },
                );
            },
            None => {},
        }
        let mut specifiers: Vec<ImportSpecifier> = Vec::new();
        if matches!(&self.tokens[self.pos].kind, TokenKind::Ident(_)) {
            let local = match self.parse_imported_default_binding() {
                Ok(local) => local,
                Err(e) => {
                    return Err(e);
                },
            };
            let def = ImportSpecifier {
                span: local.span,
                local,
                kind: ImportSpecifierKind::Default,
            };
            if self.pos < self.tokens.len() && matches!(
                &self.tokens[self.pos].kind,
                TokenKind::KwFrom,
            ) {
                specifiers.push(def);
            } else if self.pos < self.tokens.len() && matches!(
                &self.tokens[self.pos].kind,
                TokenKind::Comma,
            ) {
                specifiers.push(def);
                self.pos = self.pos + 1;
                match self.parse_import_group(&mut specifiers) {
                    Ok(u) => u,
                    Err(e) => {
                        return Err(e);
                    },
                };
            } else if self.pos < self.tokens.len() {
                return Err(ParseError::UnexpectedToken { span: self.tokens[self.pos].span });
            } else {
                return Err(ParseError::UnexpectedEnd);
            }
        } else {
            match self.parse_import_group(&mut specifiers) {
                Ok(u) => u,
                Err(e) => {
                    return Err(e);
                },
            };
        }
        let src = match self.parse_from_clause_and_semi() {
            Ok(src) => src,
            Err(e) => {
                return Err(e);
            },
        };
        let hi = self.tokens[self.pos - 1].span.hi;
        Ok(
            ModuleDecl {
                span: Span { lo: start_lo, hi },
                kind: ModuleDeclKind::Import { specifiers, src },
            },
        )
    }

    /// `orig` or `orig as exported` in `export { ... }`.
    pub fn parse_export_specifier(&mut self) -> (r: Result<ExportSpecifier, ParseError>)
        requires
            old(self).wf(),
        ensures
            final(self).wf(),
            final(self).tokens == old(self).tokens,
            final(self).ctx == old(self).ctx,
            matches_parse(
                parse_export_specifier_spec(old(self).tokens@, old(self).pos as int),
                r,
                final(self).pos,
            ),
    {
        let orig = match self.parse_ident_name() {
            Ok(orig) => orig,
            Err(e) => {
                return Err(e);
            },
        };
        if self.pos < self.tokens.len() && matches!(&self.tokens[self.pos].kind, TokenKind::KwAs) {
            self.pos = self.pos + 1;
            let exported = match self.parse_ident_name() {
                Ok(exported) => exported,
                Err(e) => {
                    return Err(e);
                },
            };
            return Ok(ExportSpecifier { orig, exported: Some(exported) });
        }
        Ok(ExportSpecifier { orig, exported: None })
    }

    /// The entries of `export { ... }` after the opening brace, appended to
    /// `specifiers`.
    fn parse_export_specs(&mut self, specifiers: &mut Vec<ExportSpecifier>, first: bool) -> (r:
        Result<(), ParseError>)
        requires
            old(self).wf(),
        ensures
            final(self).wf(),
            final(self).tokens == old(self).tokens,
            final(self).ctx == old(self).ctx,
            match parse_export_specs_spec(
                old(self).tokens@,
                old(self).pos as int,
                first,
                old(specifiers)@,
            ) {
                Parse::Done { v, end } => r is Ok && final(specifiers)@ == v && final(self).pos
                    as int == end,
                Parse::Fail { err } => r matches Err(e) && e == err,
            },
        decreases old(self).tokens@.len() - old(self).pos,
    {
        let ghost toks = self.tokens@;
        let ghost pos0 = self.pos as int;
        if self.pos >= self.tokens.len() {
            return Err(ParseError::UnexpectedEnd);
        }
        let cur_span = self.tokens[self.pos].span;
        let cur_is_comma = matches!(&self.tokens[self.pos].kind, TokenKind::Comma);
        let cur_is_ident = matches!(&self.tokens[self.pos].kind, TokenKind::Ident(_));
        if cur_is_comma || cur_is_ident {
            if !first && cur_is_comma {
                if self.pos + 1 < self.tokens.len() && matches!(
                    &self.tokens[self.pos + 1].kind,
                    TokenKind::RBrace,
                ) {
                    self.pos = self.pos + 2;
                    return Ok(());
                }
                self.pos = self.pos + 1;
            }
            let s = match self.parse_export_specifier() {
                Ok(s) => s,
                Err(e) => {
                    return Err(e);
                },
            };
            proof {
                lemma_export_specifier_progress(toks, pos0);
                lemma_export_specifier_progress(toks, pos0 + 1);
            }
            specifiers.push(s);
            self.parse_export_specs(specifiers, false)
        } else if matches!(&self.tokens[self.pos].kind, TokenKind::RBrace) {
            self.pos = self.pos + 1;
            Ok(())
        } else {
            Err(ParseError::UnexpectedToken { span: cur_span })
        }
    }

    /// A whole `export` declaration: `export * from ...;`,
    /// `export default <expression>;`, or `export { ... } [from ...;]`.
    /// The class, function and variable forms belong to statement-level
    /// collaborators and are unexpected tokens here.
    pub fn parse_export(&mut self) -> (r: Result<ModuleDecl, ParseError>)
        requires
            old(self).wf(),
            old(self).pos < old(self).tokens.len(),
            old(self).tokens@[old(self).pos as int].kind is KwExport,
        ensures
            final(self).wf(),
            final(self).tokens == old(self).tokens,
            final(self).ctx == old(self).ctx,
            export_decl_matches(
                old(self).tokens@,
                old(self).ctx,
                old(self).pos as int,
                r,
                final(self).pos,
            ),
    {
        let start_lo = self.tokens[self.pos].span.lo;
        self.pos = self.pos + 1;
        if self.pos >= self.tokens.len() {
            return Err(ParseError::UnexpectedEnd);
        }
        if matches!(&self.tokens[self.pos].kind, TokenKind::Op(BinaryOp::Mul)) {
            self.pos = self.pos + 1;
            let src = match self.parse_from_clause_and_semi() {
                Ok(src) => src,
                Err(e) => {
                    return Err(e);
                },
            };
            let hi = self.tokens[self.pos - 1].span.hi;
            return Ok(
                ModuleDecl {
                    span: Span { lo: start_lo, hi },
                    kind: ModuleDeclKind::ExportAll { src },
                },
            );
        }
        if matches!(&self.tokens[self.pos].kind, TokenKind::KwDefault) {
            self.pos = self.pos + 1;
            let saved = self.ctx;
            self.ctx = Context {
                include_in_expr: true,
                in_async: saved.in_async,
                in_generator: saved.in_generator,
                strict: saved.strict,
            };
            let expr_r = self.parse_assignment_expr();
            self.ctx = saved;
            let expr = match expr_r {
                Ok(expr) => expr,
                Err(e) => {
                    return Err(e);
                },
            };
            if self.pos >= self.tokens.len() {
                return Err(ParseError::UnexpectedEnd);
            }
            let semi_span = self.tokens[self.pos].span;
            if !matches!(&self.tokens[self.pos].kind, TokenKind::Semi) {
                return Err(ParseError::UnexpectedToken { span: semi_span });
            }
            self.pos = self.pos + 1;
            return Ok(
                ModuleDecl {
                    span: Span { lo: start_lo, hi: semi_span.hi },
                    kind: ModuleDeclKind::ExportDefaultExpr(expr),
                },
            );
        }
        if matches!(&self.tokens[self.pos].kind, TokenKind::LBrace) {
            self.pos = self.pos + 1;
            let ghost toks = self.tokens@;
            let ghost specs_pos = self.pos as int;
            let mut specifiers: Vec<ExportSpecifier> = Vec::new();
            match self.parse_export_specs(&mut specifiers, true) {
                Ok(u) => u,
                Err(e) => {
                    return Err(e);
                },
            };
            proof {
                lemma_export_specs_progress(toks, specs_pos, true, Seq::empty());
            }
            if self.pos < self.tokens.len() && matches!(
                &self.tokens[self.pos].kind,
                TokenKind::KwFrom,
            ) {
                let src = match self.parse_from_clause_and_semi() {
                    Ok(src) => src,
                    Err(e) => {
                        return Err(e);
                    },
                };
                let hi = self.tokens[self.pos - 1].span.hi;
                return Ok(
                    ModuleDecl {
                        span: Span { lo: start_lo, hi },
                        kind: ModuleDeclKind::ExportNamed { specifiers, src: Some(src) },
                    },
                );
            }
            let hi = self.tokens[self.pos - 1].span.hi;
            return Ok(
                ModuleDecl {
                    span: Span { lo: start_lo, hi },
                    kind: ModuleDeclKind::ExportNamed { specifiers, src: None },
                },
            );
        }
        Err(ParseError::UnexpectedToken { span: self.tokens[self.pos].span })
    }

    /// The statement-level hook for `import` and `export`: both are legal
    /// only at the top level of a module.
    pub fn handle_import_export(&mut self, top_level: bool) -> (r: Result<ModuleDecl, ParseError>)
        requires
            old(self).wf(),
            old(self).pos < old(self).tokens.len(),
            old(self).tokens@[old(self).pos as int].kind is KwImport || old(
                self,
            ).tokens@[old(self).pos as int].kind is KwExport,
        ensures
            final(self).wf(),
            final(self).tokens == old(self).tokens,
            final(self).ctx == old(self).ctx,
            !top_level ==> (r matches Err(e) && e == (ParseError::NonTopLevelImportExport {
                span: old(self).tokens@[old(self).pos as int].span,
            })),
            top_level && old(self).tokens@[old(self).pos as int].kind is KwImport
                ==> import_decl_matches(
                old(self).tokens@,
                old(self).ctx,
                old(self).pos as int,
                r,
                final(self).pos,
            ),
            top_level && old(self).tokens@[old(self).pos as int].kind is KwExport
                ==> export_decl_matches(
                old(self).tokens@,
                old(self).ctx,
                old(self).pos as int,
                r,
                final(self).pos,
            ),
    {
        if !top_level {
            return Err(
                ParseError::NonTopLevelImportExport { span: self.tokens[self.pos].span },
            );
        }
        if matches!(&self.tokens[self.pos].kind, TokenKind::KwImport) {
            self.parse_import()
        } else {
            self.parse_export()
        }
    }
}

} // verus!
