use ecma_expr::ast::{BinaryOp, Expr, ExprKind, Span, UnaryOp, UpdateOp};
use ecma_expr::context::Context;
use ecma_expr::error::ParseError;
use ecma_expr::module_item::{ImportSpecifierKind, ModuleDeclKind};
use ecma_expr::parser::Parser;
use ecma_expr::token::{Token, TokenKind};

/// A small lexer for the tests: numbers, identifiers and keywords,
/// single-quoted strings, the punctuators the parser knows, and line
/// terminators (which set `had_line_break` on the following token).
fn tokenize(src: &str) -> Vec<Token> {
    let b = src.as_bytes();
    let mut toks: Vec<Token> = Vec::new();
    let mut i = 0usize;
    let mut line_break = false;
    while i < b.len() {
        let c = b[i];
        if c == b' ' || c == b'\t' {
            i += 1;
            continue;
        }
        if c == b'\n' || c == b'\r' {
            line_break = true;
            i += 1;
            continue;
        }
        let start = i;
        let kind = if c.is_ascii_digit() {
            while i < b.len() && b[i].is_ascii_digit() {
                i += 1;
            }
            TokenKind::Num(src[start..i].parse().unwrap())
        } else if c.is_ascii_alphabetic() || c == b'_' || c == b'$' {
            while i < b.len() && (b[i].is_ascii_alphanumeric() || b[i] == b'_' || b[i] == b'$') {
                i += 1;
            }
            match &src[start..i] {
                "in" => TokenKind::KwIn,
                "instanceof" => TokenKind::KwInstanceOf,
                "delete" => TokenKind::KwDelete,
                "void" => TokenKind::KwVoid,
                "typeof" => TokenKind::KwTypeOf,
                "await" => TokenKind::KwAwait,
                "import" => TokenKind::KwImport,
                "export" => TokenKind::KwExport,
                "default" => TokenKind::KwDefault,
                "from" => TokenKind::KwFrom,
                "as" => TokenKind::KwAs,
                w => TokenKind::Ident(w.to_string()),
            }
        } else if c == b'\'' {
            i += 1;
            let s0 = i;
            while i < b.len() && b[i] != b'\'' {
                i += 1;
            }
            let v = src[s0..i].to_string();
            i += 1;
            TokenKind::Str(v)
        } else {
            let rest = &b[i..];
            let (k, n) = if rest.starts_with(b">>>") {
                (TokenKind::Op(BinaryOp::ZeroFillRShift), 3)
            } else if rest.starts_with(b"**") {
                (TokenKind::Op(BinaryOp::Exp), 2)
            } else if rest.starts_with(b"++") {
                (TokenKind::PlusPlus, 2)
            } else if rest.starts_with(b"--") {
                (TokenKind::MinusMinus, 2)
            } else if rest.starts_with(b"<<") {
                (TokenKind::Op(BinaryOp::LShift), 2)
            } else if rest.starts_with(b">>") {
                (TokenKind::Op(BinaryOp::RShift), 2)
            } else if rest.starts_with(b"&&") {
                (TokenKind::Op(BinaryOp::LogicalAnd), 2)
            } else if rest.starts_with(b"||") {
                (TokenKind::Op(BinaryOp::LogicalOr), 2)
            } else if rest.starts_with(b"??") {
                (TokenKind::Op(BinaryOp::NullishCoalescing), 2)
            } else if rest.starts_with(b"=>") {
                (TokenKind::Arrow, 2)
            } else {
                let k = match c {
                    b'+' => TokenKind::Op(BinaryOp::Add),
                    b'-' => TokenKind::Op(BinaryOp::Sub),
                    b'*' => TokenKind::Op(BinaryOp::Mul),
                    b'/' => TokenKind::Op(BinaryOp::Div),
                    b'%' => TokenKind::Op(BinaryOp::Mod),
                    b'&' => TokenKind::Op(BinaryOp::BitAnd),
                    b'|' => TokenKind::Op(BinaryOp::BitOr),
                    b'^' => TokenKind::Op(BinaryOp::BitXor),
                    b'~' => TokenKind::Tilde,
                    b'!' => TokenKind::Bang,
                    b'(' => TokenKind::LParen,
                    b')' => TokenKind::RParen,
                    b'{' => TokenKind::LBrace,
                    b'}' => TokenKind::RBrace,
                    b',' => TokenKind::Comma,
                    b';' => TokenKind::Semi,
                    b'.' => TokenKind::Dot,
                    other => panic!("test lexer: unexpected character {}", other as char),
                };
                (k, 1)
            };
            i += n;
            k
        };
        toks.push(Token { kind, span: Span { lo: start, hi: i }, had_line_break: line_break });
        line_break = false;
    }
    toks
}

fn base_ctx() -> Context {
    Context { include_in_expr: true, in_async: false, in_generator: false, strict: false }
}

fn parser_for(src: &str, ctx: Context) -> Parser {
    Parser::new(tokenize(src), ctx)
}

fn bin(s: &str) -> Box<Expr> {
    let mut p = parser_for(s, base_ctx());
    p.parse_bin_expr().unwrap_or_else(|err| {
        panic!("failed to parse '{}' as a binary expression: {:?}", s, err)
    })
}

fn bin_err(s: &str) -> ParseError {
    let mut p = parser_for(s, base_ctx());
    match p.parse_bin_expr() {
        Ok(e) => panic!("expected '{}' to fail, got {:?}", s, e),
        Err(err) => err,
    }
}

fn eq_ignore_span(a: &Expr, b: &Expr) -> bool {
    match (&a.kind, &b.kind) {
        (ExprKind::Num(x), ExprKind::Num(y)) => x == y,
        (ExprKind::Str(x), ExprKind::Str(y)) => x == y,
        (ExprKind::Ident(x), ExprKind::Ident(y)) => x == y,
        (
            ExprKind::Member { obj: ao, prop: ap },
            ExprKind::Member { obj: bo, prop: bp },
        ) => eq_ignore_span(ao, bo) && eq_ignore_span(ap, bp),
        (ExprKind::Paren(x), ExprKind::Paren(y)) => eq_ignore_span(x, y),
        (
            ExprKind::Arrow { param: a1, body: a2 },
            ExprKind::Arrow { param: b1, body: b2 },
        ) => eq_ignore_span(a1, b1) && eq_ignore_span(a2, b2),
        (ExprKind::Unary { op: o1, arg: x }, ExprKind::Unary { op: o2, arg: y }) => {
            o1 == o2 && eq_ignore_span(x, y)
        }
        (
            ExprKind::Update { op: o1, prefix: p1, arg: x },
            ExprKind::Update { op: o2, prefix: p2, arg: y },
        ) => o1 == o2 && p1 == p2 && eq_ignore_span(x, y),
        (
            ExprKind::Bin { op: o1, left: l1, right: r1 },
            ExprKind::Bin { op: o2, left: l2, right: r2 },
        ) => o1 == o2 && eq_ignore_span(l1, l2) && eq_ignore_span(r1, r2),
        (ExprKind::Await { arg: x }, ExprKind::Await { arg: y }) => eq_ignore_span(x, y),
        _ => false,
    }
}

fn zero_span() -> Span {
    Span { lo: 0, hi: 0 }
}

#[test]
fn simple() {
    assert!(eq_ignore_span(
        &bin("5 + 4 * 7"),
        &Expr {
            span: zero_span(),
            kind: ExprKind::Bin { op: BinaryOp::Add, left: bin("5"), right: bin("4 * 7") },
        },
    ));
}

#[test]
fn same_prec() {
    assert!(eq_ignore_span(
        &bin("5 + 4 + 7"),
        &Expr {
            span: zero_span(),
            kind: ExprKind::Bin { op: BinaryOp::Add, left: bin("5 + 4"), right: bin("7") },
        },
    ));
}

#[test]
fn exponentiation_is_right_associative() {
    assert!(eq_ignore_span(
        &bin("2 ** 3 ** 2"),
        &Expr {
            span: zero_span(),
            kind: ExprKind::Bin { op: BinaryOp::Exp, left: bin("2"), right: bin("3 ** 2") },
        },
    ));
}

#[test]
fn unary_left_of_exponentiation_is_ambiguous() {
    match bin_err("-2 ** 2") {
        ParseError::AmbiguousExponentiation { left_span } => {
            assert_eq!(left_span, Span { lo: 0, hi: 2 });
        }
        other => panic!("expected AmbiguousExponentiation, got {:?}", other),
    }
}

#[test]
fn parenthesized_unary_left_of_exponentiation_is_fine() {
    assert!(eq_ignore_span(
        &bin("(-2) ** 2"),
        &Expr {
            span: zero_span(),
            kind: ExprKind::Bin { op: BinaryOp::Exp, left: bin("(-2)"), right: bin("2") },
        },
    ));
}

#[test]
fn postfix_on_literal_is_invalid_target() {
    match bin_err("5++") {
        ParseError::InvalidAssignmentTarget { span } => {
            assert_eq!(span, Span { lo: 0, hi: 1 });
        }
        other => panic!("expected InvalidAssignmentTarget, got {:?}", other),
    }
}

#[test]
fn postfix_on_parenthesized_sum_is_invalid_target() {
    match bin_err("(a + b)++") {
        ParseError::InvalidAssignmentTarget { span } => {
            assert_eq!(span, Span { lo: 0, hi: 7 });
        }
        other => panic!("expected InvalidAssignmentTarget, got {:?}", other),
    }
}

#[test]
fn postfix_on_identifier_and_member() {
    assert!(eq_ignore_span(
        &bin("x++"),
        &Expr {
            span: zero_span(),
            kind: ExprKind::Update { op: UpdateOp::PlusPlus, prefix: false, arg: bin("x") },
        },
    ));
    assert!(eq_ignore_span(
        &bin("obj.prop++"),
        &Expr {
            span: zero_span(),
            kind: ExprKind::Update {
                op: UpdateOp::PlusPlus,
                prefix: false,
                arg: bin("obj.prop"),
            },
        },
    ));
}

#[test]
fn prefix_update_checks_target() {
    assert!(eq_ignore_span(
        &bin("++x"),
        &Expr {
            span: zero_span(),
            kind: ExprKind::Update { op: UpdateOp::PlusPlus, prefix: true, arg: bin("x") },
        },
    ));
    match bin_err("--5") {
        ParseError::InvalidAssignmentTarget { span } => {
            assert_eq!(span, Span { lo: 2, hi: 3 });
        }
        other => panic!("expected InvalidAssignmentTarget, got {:?}", other),
    }
}

#[test]
fn line_break_leaves_postfix_operator_unconsumed() {
    let mut p = parser_for("x\n++", base_ctx());
    let e = p.parse_bin_expr().unwrap();
    assert!(eq_ignore_span(&e, &bin("x")));
    // the `++` token is still current, for the next statement
    assert_eq!(p.pos, 1);
}

#[test]
fn postfix_on_same_line_is_consumed() {
    let mut p = parser_for("x ++", base_ctx());
    let e = p.parse_bin_expr().unwrap();
    assert!(matches!(e.kind, ExprKind::Update { prefix: false, .. }));
    assert_eq!(p.pos, 2);
}

#[test]
fn in_operator_needs_context_flag() {
    let mut off = base_ctx();
    off.include_in_expr = false;
    let mut p = parser_for("x in y", off);
    let e = p.parse_bin_expr().unwrap();
    assert!(eq_ignore_span(&e, &bin("x")));
    // `in y` is left unconsumed
    assert_eq!(p.pos, 1);

    let mut p2 = parser_for("x in y", base_ctx());
    let e2 = p2.parse_bin_expr().unwrap();
    assert!(matches!(
        e2.kind,
        ExprKind::Bin { op: BinaryOp::In, .. }
    ));
    assert_eq!(p2.pos, 3);
}

#[test]
fn await_is_gated_on_async_context() {
    let mut async_ctx = base_ctx();
    async_ctx.in_async = true;
    let mut p = parser_for("await x", async_ctx);
    let e = p.parse_bin_expr().unwrap();
    assert!(eq_ignore_span(
        &e,
        &Expr { span: zero_span(), kind: ExprKind::Await { arg: bin("x") } },
    ));

    // outside an async context this layer does not claim the keyword
    let mut p2 = parser_for("await x", base_ctx());
    match p2.parse_bin_expr() {
        Ok(e2) => panic!("await claimed outside async context: {:?}", e2),
        Err(err) => assert!(matches!(err, ParseError::UnexpectedToken { .. })),
    }
}

#[test]
fn await_star_is_a_dedicated_error() {
    let mut async_ctx = base_ctx();
    async_ctx.in_async = true;
    let mut p = parser_for("await * x", async_ctx);
    match p.parse_bin_expr() {
        Ok(e) => panic!("expected AwaitGeneratorDelegation, got {:?}", e),
        Err(err) => assert!(matches!(err, ParseError::AwaitGeneratorDelegation { .. })),
    }
}

#[test]
fn spans_cover_consumed_tokens() {
    let e = bin("5 + 4 * 7");
    assert_eq!(e.span, Span { lo: 0, hi: 9 });
    match &e.kind {
        ExprKind::Bin { left, right, .. } => {
            assert_eq!(left.span, Span { lo: 0, hi: 1 });
            assert_eq!(right.span, Span { lo: 4, hi: 9 });
        }
        other => panic!("expected a binary node, got {:?}", other),
    }
    let m = bin("obj.prop++");
    assert_eq!(m.span, Span { lo: 0, hi: 10 });
    let aw = bin("(a + b)");
    assert_eq!(aw.span, Span { lo: 0, hi: 7 });
}

#[test]
fn unary_operators_wrap_their_operand() {
    assert!(eq_ignore_span(
        &bin("typeof x"),
        &Expr {
            span: zero_span(),
            kind: ExprKind::Unary { op: UnaryOp::TypeOf, arg: bin("x") },
        },
    ));
    assert!(eq_ignore_span(
        &bin("!-x"),
        &Expr {
            span: zero_span(),
            kind: ExprKind::Unary { op: UnaryOp::Bang, arg: bin("-x") },
        },
    ));
}

#[test]
fn strict_mode_rejects_eval_as_target() {
    let mut strict = base_ctx();
    strict.strict = true;
    let mut p = parser_for("eval++", strict);
    match p.parse_bin_expr() {
        Ok(e) => panic!("expected InvalidAssignmentTarget, got {:?}", e),
        Err(err) => assert!(matches!(err, ParseError::InvalidAssignmentTarget { .. })),
    }
    // without strict mode the same input is a valid update
    let e = bin("eval++");
    assert!(matches!(e.kind, ExprKind::Update { prefix: false, .. }));
}

#[test]
fn missing_operand_is_unexpected_end() {
    assert!(matches!(bin_err("5 +"), ParseError::UnexpectedEnd));
    assert!(matches!(bin_err(""), ParseError::UnexpectedEnd));
}

#[test]
fn stray_token_is_unexpected() {
    assert!(matches!(bin_err("+ )"), ParseError::UnexpectedToken { .. }));
}

#[test]
fn arrow_head_returns_arrow_node() {
    let e = bin("(x) => y + 1");
    match &e.kind {
        ExprKind::Arrow { body, .. } => assert!(eq_ignore_span(body, &bin("y + 1"))),
        other => panic!("expected an arrow node, got {:?}", other),
    }
}

fn module_decl(src: &str) -> ecma_expr::module_item::ModuleDecl {
    let mut p = parser_for(src, base_ctx());
    p.handle_import_export(true)
        .unwrap_or_else(|err| panic!("failed to parse '{}': {:?}", src, err))
}

#[test]
fn import_of_bare_source() {
    let d = module_decl("import 'mod.js';");
    assert_eq!(d.span, Span { lo: 0, hi: 16 });
    match d.kind {
        ModuleDeclKind::Import { specifiers, src } => {
            assert!(specifiers.is_empty());
            assert_eq!(src, "mod.js");
        }
        other => panic!("expected an import, got {:?}", other),
    }
}

#[test]
fn import_default_namespace_and_named() {
    let d = module_decl("import a, { b, c as d } from 'm';");
    match d.kind {
        ModuleDeclKind::Import { specifiers, src } => {
            assert_eq!(src, "m");
            assert_eq!(specifiers.len(), 3);
            assert!(matches!(specifiers[0].kind, ImportSpecifierKind::Default));
            assert_eq!(specifiers[0].local.sym, "a");
            assert!(matches!(
                specifiers[1].kind,
                ImportSpecifierKind::Specific { imported: None }
            ));
            assert_eq!(specifiers[1].local.sym, "b");
            match &specifiers[2].kind {
                ImportSpecifierKind::Specific { imported: Some(orig) } => {
                    assert_eq!(orig.sym, "c");
                }
                other => panic!("expected a renamed specifier, got {:?}", other),
            }
            assert_eq!(specifiers[2].local.sym, "d");
        }
        other => panic!("expected an import, got {:?}", other),
    }

    let d2 = module_decl("import * as ns from 'm';");
    match d2.kind {
        ModuleDeclKind::Import { specifiers, .. } => {
            assert_eq!(specifiers.len(), 1);
            assert!(matches!(specifiers[0].kind, ImportSpecifierKind::Namespace));
            assert_eq!(specifiers[0].local.sym, "ns");
            assert_eq!(specifiers[0].span, Span { lo: 7, hi: 14 });
        }
        other => panic!("expected an import, got {:?}", other),
    }
}

#[test]
fn import_list_allows_trailing_comma() {
    let d = module_decl("import { a, } from 'm';");
    match d.kind {
        ModuleDeclKind::Import { specifiers, .. } => {
            assert_eq!(specifiers.len(), 1);
            assert_eq!(specifiers[0].local.sym, "a");
        }
        other => panic!("expected an import, got {:?}", other),
    }
}

#[test]
fn reserved_word_needs_rename_in_import() {
    let mut p = parser_for("import { var } from 'm';", base_ctx());
    match p.handle_import_export(true) {
        Ok(d) => panic!("expected a reserved-word error, got {:?}", d),
        Err(err) => assert!(matches!(err, ParseError::UnexpectedToken { .. })),
    }
    // renamed, the reserved original is fine
    let d = module_decl("import { var as x } from 'm';");
    match d.kind {
        ModuleDeclKind::Import { specifiers, .. } => {
            assert_eq!(specifiers[0].local.sym, "x");
        }
        other => panic!("expected an import, got {:?}", other),
    }
}

#[test]
fn imported_binding_ignores_async_context() {
    // `await` as a binding name: the import clause clears the async flag,
    // so a stream holding it as a plain identifier is accepted even when
    // the surrounding code is async
    let mut async_ctx = base_ctx();
    async_ctx.in_async = true;
    let mut toks = tokenize("import x from 'm';");
    toks[1] = Token {
        kind: TokenKind::Ident("await".to_string()),
        span: toks[1].span,
        had_line_break: false,
    };
    let mut p = Parser::new(toks, async_ctx);
    let d = p.parse_import().unwrap();
    match d.kind {
        ModuleDeclKind::Import { specifiers, .. } => {
            assert_eq!(specifiers[0].local.sym, "await");
        }
        other => panic!("expected an import, got {:?}", other),
    }
    // outside an import clause the same binding is rejected in async code
    let toks2 = vec![Token {
        kind: TokenKind::Ident("await".to_string()),
        span: Span { lo: 0, hi: 5 },
        had_line_break: false,
    }];
    let mut p2 = Parser::new(toks2, async_ctx);
    assert!(p2.parse_binding_ident().is_err());
}

#[test]
fn export_all_and_default() {
    let d = module_decl("export * from 'm';");
    match d.kind {
        ModuleDeclKind::ExportAll { src } => assert_eq!(src, "m"),
        other => panic!("expected an export-all, got {:?}", other),
    }

    let d2 = module_decl("export default 5 + 4;");
    match d2.kind {
        ModuleDeclKind::ExportDefaultExpr(e) => assert!(eq_ignore_span(&e, &bin("5 + 4"))),
        other => panic!("expected a default export, got {:?}", other),
    }
    assert_eq!(d2.span, Span { lo: 0, hi: 21 });
}

#[test]
fn export_named_with_and_without_source() {
    let d = module_decl("export { a, b as c }");
    match d.kind {
        ModuleDeclKind::ExportNamed { specifiers, src } => {
            assert!(src.is_none());
            assert_eq!(specifiers.len(), 2);
            assert_eq!(specifiers[0].orig.sym, "a");
            assert!(specifiers[0].exported.is_none());
            assert_eq!(specifiers[1].orig.sym, "b");
            assert_eq!(specifiers[1].exported.as_ref().unwrap().sym, "c");
        }
        other => panic!("expected a named export, got {:?}", other),
    }

    let d2 = module_decl("export { a } from 'm';");
    match d2.kind {
        ModuleDeclKind::ExportNamed { src, .. } => assert_eq!(src.unwrap(), "m"),
        other => panic!("expected a named export, got {:?}", other),
    }
}

#[test]
fn import_export_only_at_top_level() {
    let mut p = parser_for("import 'm';", base_ctx());
    match p.handle_import_export(false) {
        Ok(d) => panic!("expected NonTopLevelImportExport, got {:?}", d),
        Err(err) => assert!(matches!(err, ParseError::NonTopLevelImportExport { .. })),
    }
}

#[test]
fn export_of_declarations_is_left_to_collaborators() {
    // class, function and variable declarations belong to statement-level
    // collaborator parsers; this layer reports them as unexpected
    let mut p = parser_for("export x", base_ctx());
    match p.handle_import_export(true) {
        Ok(d) => panic!("expected an error, got {:?}", d),
        Err(err) => assert!(matches!(err, ParseError::UnexpectedToken { .. })),
    }
}

#[test]
fn from_clause_requires_string_and_semicolon() {
    let mut p = parser_for("import * as n from m;", base_ctx());
    assert!(matches!(
        p.parse_import(),
        Err(ParseError::UnexpectedToken { .. })
    ));
    let mut p2 = parser_for("import * as n from 'm'", base_ctx());
    assert!(matches!(p2.parse_import(), Err(ParseError::UnexpectedEnd)));
}
