use rpl_mir_syntax::error::ParseError;
use rpl_mir_syntax::lex::tokenize;
use rpl_mir_syntax::token::{Kind, Token};
use rpl_mir_syntax::tree::{NodeKind, Tree};
use rpl_mir_syntax::unit::{parse_all, parse_at, parse_source, Production};

fn kinds(src: &str) -> Vec<Kind> {
    tokenize(src).unwrap().iter().map(|t| t.kind).collect()
}

fn texts(tokens: &[Token]) -> Vec<String> {
    tokens.iter().map(|t| t.text.clone()).collect()
}

fn children(t: &Tree) -> &Vec<Tree> {
    match t {
        Tree::Branch(_, c) => c,
        Tree::Leaf(_) => panic!("a leaf has no children"),
    }
}

fn leaf_text(t: &Tree) -> String {
    match t {
        Tree::Leaf(x) => x.text.clone(),
        Tree::Branch(..) => panic!("not a leaf"),
    }
}

#[test]
fn tokens_keep_their_text_and_get_their_kind() {
    let toks = tokenize("copy (*x.0)[1:-3]").unwrap();
    assert_eq!(
        texts(&toks),
        vec!["copy", "(", "*", "x", ".", "0", ")", "[", "1", ":", "-", "3", "]"]
    );
    assert_eq!(
        kinds("copy (*x.0)[1:-3]"),
        vec![
            Kind::Copy,
            Kind::LParen,
            Kind::Star,
            Kind::Ident,
            Kind::Dot,
            Kind::Literal,
            Kind::RParen,
            Kind::LBracket,
            Kind::Literal,
            Kind::Colon,
            Kind::Minus,
            Kind::Literal,
            Kind::RBracket,
        ]
    );
}

#[test]
fn groups_are_flattened_with_their_delimiters() {
    assert_eq!(
        kinds("{ [ ( a ) ] }"),
        vec![
            Kind::LBrace,
            Kind::LBracket,
            Kind::LParen,
            Kind::Ident,
            Kind::RParen,
            Kind::RBracket,
            Kind::RBrace,
        ]
    );
    assert_eq!(texts(&tokenize("f(x, y)").unwrap()), vec!["f", "(", "x", ",", "y", ")"]);
}

#[test]
fn words_of_the_grammar_are_classified() {
    assert_eq!(
        kinds("crate as of from copy move const mut raw let type use meta loop switchInt break drop true false _ foo"),
        vec![
            Kind::Crate,
            Kind::As,
            Kind::Of,
            Kind::From,
            Kind::Copy,
            Kind::Move,
            Kind::Const,
            Kind::Mut,
            Kind::Raw,
            Kind::Let,
            Kind::Type,
            Kind::Use,
            Kind::Meta,
            Kind::Loop,
            Kind::SwitchInt,
            Kind::Break,
            Kind::Drop,
            Kind::Bool,
            Kind::Bool,
            Kind::Underscore,
            Kind::Ident,
        ]
    );
    assert_eq!(
        kinds(": ; , = * & < > - $ . ! 0_usize +"),
        vec![
            Kind::Colon,
            Kind::Semi,
            Kind::Comma,
            Kind::Eq,
            Kind::Star,
            Kind::Amp,
            Kind::Lt,
            Kind::Gt,
            Kind::Minus,
            Kind::Dollar,
            Kind::Dot,
            Kind::Bang,
            Kind::Literal,
            Kind::Other,
        ]
    );
}

#[test]
fn unbalanced_text_is_a_lex_error() {
    assert_eq!(tokenize("(x").unwrap_err(), ParseError::Lex);
    assert_eq!(parse_source(Production::Mir, "{").unwrap_err(), ParseError::Lex);
    assert_eq!(
        ParseError::Lex.message(),
        "cannot parse string into token stream"
    );
}

#[test]
fn every_error_has_its_message() {
    assert_eq!(
        ParseError::ReservedCrate.message(),
        "expected identifier, found keyword `crate`"
    );
    assert_eq!(ParseError::ExpectedPathSep.message(), "expected `::`");
    assert_eq!(
        ParseError::EndExpectedIdent.message(),
        "unexpected end of input, expected identifier"
    );
    assert_eq!(
        ParseError::EndExpectedParens.message(),
        "unexpected end of input, expected parentheses"
    );
    assert_eq!(ParseError::UnexpectedEnd.message(), "unexpected end of input");
    assert_eq!(ParseError::UnexpectedToken.message(), "unexpected token");
    assert_eq!(
        ParseError::TypeWithGenericsNotSupported.message(),
        "generic parameters are not supported on a type declaration"
    );
}

#[test]
fn every_error_has_an_input() {
    let err = |p, s| parse_source(p, s).unwrap_err();
    assert_eq!(err(Production::Path, "a::crate::b"), ParseError::ReservedCrate);
    assert_eq!(err(Production::Path, "$crate b"), ParseError::ExpectedPathSep);
    assert_eq!(err(Production::Path, "a::"), ParseError::EndExpectedIdent);
    assert_eq!(err(Production::Path, ""), ParseError::EndExpectedIdent);
    assert_eq!(
        err(Production::RvalueCast, "copy x as usize"),
        ParseError::EndExpectedParens
    );
    assert_eq!(err(Production::Statement, "x = copy y"), ParseError::UnexpectedEnd);
    assert_eq!(err(Production::Statement, "x = copy y,"), ParseError::UnexpectedToken);
    assert_eq!(
        err(Production::Declaration, "type A<T> = T;"),
        ParseError::TypeWithGenericsNotSupported
    );
    assert_eq!(err(Production::Block, "{ x = "), ParseError::Lex);
}

#[test]
fn a_call_is_never_a_bare_path() {
    let t = parse_source(Production::RvalueOrCall, "f(x)").unwrap();
    assert_eq!(t.kind(), Some(NodeKind::Call));
    let c = children(&t);
    assert_eq!(c.len(), 4);
    assert_eq!(c[0].kind(), Some(NodeKind::Path));
    assert_eq!(leaf_text(&c[1]), "(");
    assert_eq!(c[2].kind(), Some(NodeKind::Path));
    assert_eq!(leaf_text(&c[3]), ")");

    let t = parse_source(Production::RvalueOrCall, "f").unwrap();
    assert_eq!(t.kind(), Some(NodeKind::Path));
    let t = parse_source(Production::RvalueOrCall, "&x").unwrap();
    assert_eq!(t.kind(), Some(NodeKind::Ref));
    let t = parse_source(Production::RvalueOrCall, "&raw const x").unwrap();
    assert_eq!(t.kind(), Some(NodeKind::RawRef));
    let t = parse_source(Production::RvalueOrCall, "T { a: const 1 }").unwrap();
    assert_eq!(t.kind(), Some(NodeKind::Aggregate));
    let t = parse_source(Production::RvalueOrCall, "copy x as u8 (IntToInt)").unwrap();
    assert_eq!(t.kind(), Some(NodeKind::Cast));
    let t = parse_source(Production::RvalueOrCall, "[const 0; 5]").unwrap();
    assert_eq!(t.kind(), Some(NodeKind::ArrayRepeat));
    let t = parse_source(Production::RvalueOrCall, "[const 0, const 1]").unwrap();
    assert_eq!(t.kind(), Some(NodeKind::ArrayList));
    let t = parse_source(Production::RvalueOrCall, "(const 0, const 1)").unwrap();
    assert_eq!(t.kind(), Some(NodeKind::Tuple));
    let t = parse_source(Production::RvalueOrCall, "*const [i32] from (p, m)").unwrap();
    assert_eq!(t.kind(), Some(NodeKind::RawSliceFrom));
}

#[test]
fn projections_compose_and_keep_negative_bounds() {
    let t = parse_source(Production::Place, "(*x.0)[1:-3]").unwrap();
    assert_eq!(t.kind(), Some(NodeKind::Place));
    let c = children(&t);
    assert_eq!(c.len(), 2);

    assert_eq!(c[0].kind(), Some(NodeKind::Paren));
    let deref = &children(&c[0])[1];
    assert_eq!(deref.kind(), Some(NodeKind::Deref));
    let inner = &children(deref)[1];
    assert_eq!(inner.kind(), Some(NodeKind::Place));
    assert_eq!(leaf_text(&children(inner)[0]), "x");
    let field = &children(inner)[1];
    assert_eq!(field.kind(), Some(NodeKind::Field));
    assert_eq!(leaf_text(&children(field)[1]), "0");

    assert_eq!(c[1].kind(), Some(NodeKind::Subslice));
    assert_eq!(texts(&c[1].tokens()), vec!["[", "1", ":", "-", "3", "]"]);

    let t = parse_source(Production::Place, "x[-3 of 4]").unwrap();
    let c = children(&t);
    assert_eq!(c[1].kind(), Some(NodeKind::OffsetIndex));
    assert_eq!(texts(&c[1].tokens()), vec!["[", "-", "3", "of", "4", "]"]);
    let t = parse_source(Production::Place, "x[y]").unwrap();
    assert_eq!(children(&t)[1].kind(), Some(NodeKind::Index));
    let t = parse_source(Production::Place, "(x as Some).0").unwrap();
    assert_eq!(children(&t)[0].kind(), Some(NodeKind::Downcast));
}

#[test]
fn generics_on_a_declared_name_are_refused() {
    assert_eq!(
        parse_source(Production::TypeDecl, "type SliceT<T> = [T];").unwrap_err(),
        ParseError::TypeWithGenericsNotSupported
    );
    let t = parse_source(Production::TypeDecl, "type SliceT = [T];").unwrap();
    assert_eq!(t.kind(), Some(NodeKind::TypeDecl));
    assert_eq!(texts(&t.tokens()), vec!["type", "SliceT", "=", "[", "T", "]", ";"]);
    let t = parse_source(Production::TypeDecl, "type V = Vec<T>;").unwrap();
    assert_eq!(t.kind(), Some(NodeKind::TypeDecl));
}

#[test]
fn crate_is_never_a_segment() {
    for src in ["crate::crate", "std::crate", "$crate::crate", "crate"] {
        assert_eq!(
            parse_source(Production::Path, src).unwrap_err().message(),
            "expected identifier, found keyword `crate`"
        );
    }
    assert_eq!(
        parse_source(Production::Type, "<crate::T as A>::b").unwrap_err(),
        ParseError::ReservedCrate
    );
}

const UNIT: &str = "
    meta!($T:ty);
    type SliceT = [$T];
    type PtrU8 = *const u8;
    let from_slice: SliceT = _;
    let to_ptr: PtrU8 = from_ptr as PtrU8 (PtrToPtr);
    let to_slice: &[u8] = *const [u8] from (to_ptr, to_len);
    to_len = Mul(copy from_len, copy size);
";

#[test]
fn a_whole_unit_round_trips_and_a_dropped_cast_kind_fails() {
    let toks = tokenize(UNIT).unwrap();
    let t = parse_all(Production::Mir, &toks).unwrap();
    assert_eq!(t.tokens(), toks);
    let c = children(&t);
    let got: Vec<Option<NodeKind>> = c.iter().map(|x| x.kind()).collect();
    assert_eq!(
        got,
        vec![
            Some(NodeKind::MetaDecl),
            Some(NodeKind::TypeDecl),
            Some(NodeKind::TypeDecl),
            Some(NodeKind::LetDecl),
            Some(NodeKind::LetDecl),
            Some(NodeKind::LetDecl),
            Some(NodeKind::Statement),
        ]
    );
    for part in c {
        let piece = part.tokens();
        let again = parse_all(
            match part.kind() {
                Some(NodeKind::MetaDecl) => Production::Meta,
                Some(NodeKind::Statement) => Production::Statement,
                _ => Production::Declaration,
            },
            &piece,
        )
        .unwrap();
        assert_eq!(again.tokens(), piece);
    }

    let broken = UNIT.replace("(PtrToPtr)", "");
    assert_eq!(
        parse_source(Production::Mir, &broken).unwrap_err().message(),
        "unexpected token"
    );
    let out_of_order = "let x: u8; type A = u8;";
    assert_eq!(
        parse_source(Production::Mir, out_of_order).unwrap_err(),
        ParseError::UnexpectedToken
    );
}

#[test]
fn a_sentence_may_end_before_the_input() {
    let toks = tokenize("a::b = c").unwrap();
    let (t, n) = parse_at(Production::Path, &toks, 0).unwrap();
    assert_eq!(n, 4);
    assert_eq!(texts(&t.tokens()), vec!["a", ":", ":", "b"]);
    assert_eq!(parse_all(Production::Path, &toks).unwrap_err(), ParseError::UnexpectedToken);
    let (t, n) = parse_at(Production::Operand, &toks, 5).unwrap();
    assert_eq!(n, 6);
    assert_eq!(t.kind(), Some(NodeKind::Path));
}

#[test]
fn the_empty_unit_is_valid_and_nothing_else_is_empty() {
    let t = parse_source(Production::Mir, "").unwrap();
    assert_eq!(t.kind(), Some(NodeKind::Mir));
    assert!(t.tokens().is_empty());
    assert!(parse_source(Production::Block, "").is_err());
    assert!(parse_source(Production::Place, "").is_err());
    let t = parse_source(Production::Block, "{}").unwrap();
    assert_eq!(children(&t).len(), 2);
}

#[test]
fn words_with_a_meaning_elsewhere_serve_as_names() {
    let t = parse_source(Production::Call, "f(meta, from, of, raw)").unwrap();
    assert_eq!(t.kind(), Some(NodeKind::Call));
    let t = parse_source(Production::Statement, "drop(x);").unwrap();
    assert_eq!(children(&t)[0].kind(), Some(NodeKind::Drop));
    let t = parse_source(Production::Statement, "_ = f(copy x);").unwrap();
    assert_eq!(children(&t)[0].kind(), Some(NodeKind::Discard));
    let t = parse_source(Production::Statement, "f(copy x);").unwrap();
    assert_eq!(children(&t)[0].kind(), Some(NodeKind::CallStmt));
    let t = parse_source(Production::Statement, "x = f(copy x);").unwrap();
    assert_eq!(children(&t)[0].kind(), Some(NodeKind::Assign));
}

#[test]
fn arms_keep_their_source_order() {
    let t = parse_source(
        Production::SwitchInt,
        "switchInt(copy x) { 0_isize => break, -1 => { }, true => y = const 1, _ => break }",
    )
    .unwrap();
    let c = children(&t);
    let arms: Vec<String> = c[5..c.len() - 1]
        .iter()
        .map(|a| leaf_text(&children(a)[0]))
        .collect();
    assert_eq!(arms, vec!["0_isize", "-", "true", "_"]);
}
