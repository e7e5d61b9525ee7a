use rpl_mir_syntax::error::ParseError;
use rpl_mir_syntax::expr::{
    choose_form, parse_array, parse_cast_kind, parse_field_init, parse_meta_item, parse_operand,
    parse_raw_slice, parse_reference, parse_tuple,
};
use rpl_mir_syntax::lex::{delimiter_token, flatten, leaf_token, tokenize, Delim, RawItem};
use rpl_mir_syntax::parse::{names, parse_path, parse_segment};
use rpl_mir_syntax::stmt::{parse_action, parse_arm, parse_arm_body};
use rpl_mir_syntax::token::{is_text, Kind, Token};
use rpl_mir_syntax::tree::{NodeKind, Tree};
use rpl_mir_syntax::unit::{complete, parse_declaration, parse_mir};

fn toks(src: &str) -> Vec<Token> {
    tokenize(src).unwrap()
}

#[test]
fn a_token_is_made_from_its_text() {
    assert_eq!(Token::word("move".to_string()).kind, Kind::Move);
    assert_eq!(Token::word("moved".to_string()).kind, Kind::Ident);
    assert_eq!(Token::mark("&".to_string()).kind, Kind::Amp);
    assert_eq!(Token::mark("?".to_string()).kind, Kind::Other);
    assert_eq!(Token::literal("1_usize".to_string()).kind, Kind::Literal);
    assert_eq!(Token::literal("1_usize".to_string()).text, "1_usize");
    let t = Token::word("x".to_string());
    assert_eq!(t.dup(), t);
    assert!(is_text(&"as".to_string(), "as"));
    assert!(!is_text(&"as".to_string(), "a"));
}

#[test]
fn delimiters_have_tokens_but_the_invisible_one() {
    assert_eq!(delimiter_token(Delim::Paren, false).unwrap().text, "(");
    assert_eq!(delimiter_token(Delim::Paren, true).unwrap().kind, Kind::RParen);
    assert_eq!(delimiter_token(Delim::Bracket, false).unwrap().kind, Kind::LBracket);
    assert_eq!(delimiter_token(Delim::Bracket, true).unwrap().text, "]");
    assert_eq!(delimiter_token(Delim::Brace, false).unwrap().text, "{");
    assert_eq!(delimiter_token(Delim::Brace, true).unwrap().kind, Kind::RBrace);
    assert!(delimiter_token(Delim::Invisible, false).is_none());
    assert!(delimiter_token(Delim::Invisible, true).is_none());
}

#[test]
fn an_item_that_is_no_group_becomes_a_token() {
    let t = leaf_token(RawItem::Word("copy".to_string())).unwrap();
    assert_eq!((t.kind, t.text.as_str()), (Kind::Copy, "copy"));
    let t = leaf_token(RawItem::Mark("$".to_string())).unwrap();
    assert_eq!((t.kind, t.text.as_str()), (Kind::Dollar, "$"));
    let t = leaf_token(RawItem::Number("0_usize".to_string())).unwrap();
    assert_eq!((t.kind, t.text.as_str()), (Kind::Literal, "0_usize"));
    let t = leaf_token(RawItem::Number("copy".to_string())).unwrap();
    assert_eq!(t.kind, Kind::Literal);
}

#[test]
fn names_are_identifiers_and_words_with_a_place() {
    for k in [Kind::Ident, Kind::Meta, Kind::From, Kind::Of, Kind::Raw, Kind::Drop, Kind::SwitchInt] {
        assert!(names(k));
    }
    for k in [Kind::Crate, Kind::Copy, Kind::Move, Kind::Const, Kind::As, Kind::Literal, Kind::End] {
        assert!(!names(k));
    }
}

#[test]
fn productions_say_where_they_end() {
    let t = toks("a::b<T, U>::c d");
    assert_eq!(parse_segment(&t, 0).unwrap().1, 1);
    assert_eq!(t.len(), 13);
    assert_eq!(parse_segment(&t, 3).unwrap().1, 9);
    assert_eq!(parse_path(&t, 0).unwrap().1, 12);
    assert_eq!(parse_path(&t, 12).unwrap().1, 13);
    assert_eq!(parse_path(&t, 13).unwrap_err(), ParseError::EndExpectedIdent);
    assert_eq!(parse_path(&t, 1).unwrap_err(), ParseError::UnexpectedToken);

    let t = toks("&raw mut *y, [const 1; 2], (move a,), *mut T from (p, m)");
    let (r, n) = parse_reference(&t, 0).unwrap();
    assert_eq!((r.kind(), n), (Some(NodeKind::RawRef), 5));
    let (r, n) = parse_array(&t, 6).unwrap();
    assert_eq!((r.kind(), n), (Some(NodeKind::ArrayRepeat), 12));
    let (r, n) = parse_tuple(&t, 13).unwrap();
    assert_eq!((r.kind(), n), (Some(NodeKind::Tuple), 18));
    let (r, n) = parse_raw_slice(&t, 19).unwrap();
    assert_eq!((r.kind(), n), (Some(NodeKind::RawSliceFrom), 28));
    assert_eq!(parse_tuple(&t, 0).unwrap_err(), ParseError::UnexpectedToken);
}

#[test]
fn small_parts_are_read_alone() {
    let t = toks("$T:ty x: const -1 PtrToPtr");
    let (r, n) = parse_meta_item(&t, 0).unwrap();
    assert_eq!((r.kind(), n), (Some(NodeKind::MetaItem), 4));
    let (r, n) = parse_field_init(&t, 4).unwrap();
    assert_eq!((r.kind(), n), (Some(NodeKind::FieldInit), 9));
    let (r, n) = parse_cast_kind(&t, 9).unwrap();
    assert_eq!(n, 10);
    assert!(matches!(r, Tree::Leaf(ref x) if x.text == "PtrToPtr"));
    assert_eq!(parse_cast_kind(&t, 10).unwrap_err(), ParseError::UnexpectedEnd);
    assert_eq!(parse_cast_kind(&t, 0).unwrap_err(), ParseError::UnexpectedToken);
    assert_eq!(parse_meta_item(&t, 4).unwrap_err(), ParseError::UnexpectedToken);
}

#[test]
fn what_follows_an_operand_decides_its_form() {
    for (src, kind, end) in [
        ("f(x) ;", NodeKind::Call, 4),
        ("f { a: x } ;", NodeKind::Aggregate, 6),
        ("f as u8 (K) ;", NodeKind::Cast, 6),
        ("f ;", NodeKind::Path, 1),
        ("copy x (y) ;", NodeKind::Copy, 2),
        ("copy x as u8 (K) ;", NodeKind::Cast, 7),
    ] {
        let t = toks(src);
        let operand = parse_operand(&t, 0).unwrap();
        let (r, n) = choose_form(&t, 0, operand).unwrap();
        assert_eq!((r.kind(), n), (Some(kind), end));
    }
}

#[test]
fn arms_and_actions_are_read_alone() {
    let t = toks("-1 => break, _ => { } true => x = copy y");
    let (r, n) = parse_arm(&t, 0).unwrap();
    assert_eq!((r.kind(), n), (Some(NodeKind::Arm), 6));
    let (r, n) = parse_arm(&t, 6).unwrap();
    assert_eq!((r.kind(), n), (Some(NodeKind::Arm), 11));
    let (r, n) = parse_arm(&t, 11).unwrap();
    assert_eq!((r.kind(), n), (Some(NodeKind::Arm), 18));
    let (r, n) = parse_arm_body(&t, 4).unwrap();
    assert_eq!(n, 5);
    assert!(matches!(r, Tree::Leaf(ref x) if x.kind == Kind::Break));
    let (r, n) = parse_arm_body(&t, 9).unwrap();
    assert_eq!((r.kind(), n), (Some(NodeKind::Block), 11));
    let (r, n) = parse_action(&t, 14).unwrap();
    assert_eq!((r.kind(), n), (Some(NodeKind::Assign), 18));
    assert_eq!(parse_arm(&t, 3).unwrap_err(), ParseError::UnexpectedToken);
}

#[test]
fn a_unit_reads_to_the_end_or_fails() {
    let t = toks("use a::b; let x: u8; x = const 1;");
    let (r, n) = parse_mir(&t, 0).unwrap();
    assert_eq!((r.kind(), n), (Some(NodeKind::Mir), t.len()));
    let (r, n) = parse_declaration(&t, 0).unwrap();
    assert_eq!((r.kind(), n), (Some(NodeKind::UseImport), 6));
    let (r, n) = parse_declaration(&t, 6).unwrap();
    assert_eq!((r.kind(), n), (Some(NodeKind::LetDecl), 11));
    assert_eq!(
        complete(&t, parse_declaration(&t, 0)).unwrap_err(),
        ParseError::UnexpectedToken
    );
    let t = toks("use a::b;");
    let whole = complete(&t, parse_declaration(&t, 0)).unwrap();
    assert_eq!(whole.tokens(), t);
    let mut out = vec![Token::word("x".to_string())];
    whole.print_into(&mut out);
    assert_eq!(out.len(), 7);
    assert_eq!(out[1..], t[..]);
}

#[test]
fn groups_deeper_than_the_bound_are_refused_and_nothing_is_added() {
    let stream: proc_macro2::TokenStream = "a ((b) [c])".parse().unwrap();
    let mut out = vec![Token::word("x".to_string())];
    assert!(!flatten(stream.clone(), 0, &mut out));
    assert_eq!(out, vec![Token::word("x".to_string())]);
    assert!(!flatten(stream.clone(), 1, &mut out));
    assert_eq!(out, vec![Token::word("x".to_string())]);
    assert!(flatten(stream, 2, &mut out));
    let texts: Vec<&str> = out.iter().map(|t| t.text.as_str()).collect();
    assert_eq!(texts, vec!["x", "a", "(", "(", "b", ")", "[", "c", "]", ")"]);
    let kinds: Vec<Kind> = out.iter().map(|t| t.kind).collect();
    assert_eq!(
        kinds,
        vec![
            Kind::Ident,
            Kind::Ident,
            Kind::LParen,
            Kind::LParen,
            Kind::Ident,
            Kind::RParen,
            Kind::LBracket,
            Kind::Ident,
            Kind::RBracket,
            Kind::RParen,
        ]
    );
    assert!(flatten(proc_macro2::TokenStream::new(), 0, &mut out));
    assert_eq!(out.len(), 10);
    let flat: proc_macro2::TokenStream = "a b".parse().unwrap();
    assert!(flatten(flat, 0, &mut out));
    assert_eq!(out.len(), 12);
}

#[test]
fn the_tokens_of_a_text_are_those_of_its_items() {
    let toks = tokenize("f(copy x, [1; 2])").unwrap();
    let texts: Vec<&str> = toks.iter().map(|t| t.text.as_str()).collect();
    assert_eq!(
        texts,
        vec!["f", "(", "copy", "x", ",", "[", "1", ";", "2", "]", ")"]
    );
    assert_eq!(toks[2].kind, Kind::Copy);
    assert_eq!(toks[6].kind, Kind::Literal);
    assert_eq!(tokenize("").unwrap().len(), 0);
    assert_eq!(tokenize("f(").unwrap_err(), ParseError::Lex);
    assert_eq!(tokenize("f)").unwrap_err(), ParseError::Lex);
}
