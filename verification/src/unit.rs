use vstd::prelude::*;
use crate::accept::{
    body_rest, call_end, cast_end, declaration_end, ending, kind_at, let_end, lets_rest, meta_end,
    mir_end, operand_end, path_end, place_end, rvalue_end, segment_end, step_name, type_decl_end,
    type_end, type_path_end, types_rest, use_end, uses_rest, assign_end, statement_end, block_end,
    switch_end, loop_end, Outcome,
};
use crate::error::ParseError;
use crate::grammar::{
    closing, is_name, is_open, is_operand, is_path, is_place, is_rvalue, is_statement, is_type,
    name, node, ordered, section, tok, well_formed, Class,
};
use crate::lex::{all_classified, glances, lexed, row_depth, row_marks, tokenize};
use crate::expr::{
    item_list,
    parse_call, parse_cast, parse_cast_kind, parse_operand, parse_place, parse_rvalue_or_call,
};
use crate::parse::{
    attach, begin, covers, expect, expect_name, parse_path, parse_segment, parse_type,
    parse_type_path, peek, peek2, sentence, spans, took_one, yields,
};
use crate::stmt::{parse_assign, parse_block, parse_loop, parse_statement, parse_switch_int};
use crate::token::{Kind, Token};
use crate::tree::{printed, NodeKind, Tree};

verus! {

/// A declaration of metavariables: `meta!` and, in parentheses, brackets or
/// braces, items `$name:kind` separated by commas; a comma may stand after
/// the last item, and a semicolon after the whole.
#[verifier::rlimit(50)]
pub fn parse_meta(toks: &Vec<Token>, pos: usize) -> (r: Result<(Tree, usize), ParseError>)
    requires
        pos <= toks.len(),
    ensures
        sentence(toks@, pos as int, r),
        ending(r) == meta_end(toks@, pos as int),
        yields(r, NodeKind::MetaDecl),
        r is Ok ==> kind_at(toks@, pos as int) == Kind::Meta,
{
    let mut kids = begin(toks, pos);
    let mut cur = pos;
    cur = expect(toks, Ghost(pos), &mut kids, cur, Kind::Meta)?;
    cur = expect(toks, Ghost(pos), &mut kids, cur, Kind::Bang)?;
    let open = peek(toks, cur);
    if !(open == Kind::LParen || open == Kind::LBracket || open == Kind::LBrace) {
        return Err(
            if cur < toks.len() {
                ParseError::UnexpectedToken
            } else {
                ParseError::UnexpectedEnd
            },
        );
    }
    let close = if open == Kind::LParen {
        Kind::RParen
    } else if open == Kind::LBracket {
        Kind::RBracket
    } else {
        Kind::RBrace
    };
    cur = expect(toks, Ghost(pos), &mut kids, cur, open)?;
    cur = item_list(toks, Ghost(pos), &mut kids, cur, close, Class::MetaItem)?;
    cur = expect(toks, Ghost(pos), &mut kids, cur, close)?;
    let ghost e = kids@.len() as int;
    assert(is_open(open) && tok(kids@[2], open) && tok(kids@[e - 1], closing(open)));
    if peek(toks, cur) == Kind::Semi {
        cur = expect(toks, Ghost(pos), &mut kids, cur, Kind::Semi)?;
    }
    assert(is_open(open) && tok(kids@[2], open) && tok(kids@[e - 1], closing(open)));
    Ok((Tree::Branch(NodeKind::MetaDecl, kids), cur))
}

/// An import: `use path;`.
pub fn parse_use(toks: &Vec<Token>, pos: usize) -> (r: Result<(Tree, usize), ParseError>)
    requires
        pos <= toks.len(),
    ensures
        sentence(toks@, pos as int, r),
        ending(r) == use_end(toks@, pos as int),
        yields(r, NodeKind::UseImport),
        r is Ok ==> kind_at(toks@, pos as int) == Kind::Use,
{
    let mut kids = begin(toks, pos);
    let mut cur = pos;
    cur = expect(toks, Ghost(pos), &mut kids, cur, Kind::Use)?;
    let sub = parse_path(toks, cur)?;
    cur = attach(toks, Ghost(pos), &mut kids, cur, sub);
    cur = expect(toks, Ghost(pos), &mut kids, cur, Kind::Semi)?;
    Ok((Tree::Branch(NodeKind::UseImport, kids), cur))
}

/// A type alias: `type Name = Type;`. Generic parameters on the declared
/// name are refused with an error of their own.
#[verifier::rlimit(50)]
pub fn parse_type_decl(toks: &Vec<Token>, pos: usize) -> (r: Result<(Tree, usize), ParseError>)
    requires
        pos <= toks.len(),
    ensures
        sentence(toks@, pos as int, r),
        ending(r) == type_decl_end(toks@, pos as int),
        yields(r, NodeKind::TypeDecl),
        r is Ok ==> kind_at(toks@, pos as int) == Kind::Type,
        kind_at(toks@, pos as int) == Kind::Type && is_name(kind_at(toks@, pos + 1))
            && kind_at(toks@, pos + 2) == Kind::Lt ==> r == Err::<(Tree, usize), ParseError>(
            ParseError::TypeWithGenericsNotSupported,
        ),
{
    let mut kids = begin(toks, pos);
    let mut cur = pos;
    cur = expect(toks, Ghost(pos), &mut kids, cur, Kind::Type)?;
    cur = expect_name(toks, Ghost(pos), &mut kids, cur)?;
    if peek(toks, cur) == Kind::Lt {
        return Err(ParseError::TypeWithGenericsNotSupported);
    }
    cur = expect(toks, Ghost(pos), &mut kids, cur, Kind::Eq)?;
    let sub = parse_type(toks, cur)?;
    cur = attach(toks, Ghost(pos), &mut kids, cur, sub);
    cur = expect(toks, Ghost(pos), &mut kids, cur, Kind::Semi)?;
    Ok((Tree::Branch(NodeKind::TypeDecl, kids), cur))
}

/// A local: `let name: Type;`, or with an initializer,
/// `let name: Type = rvalue-or-call;`.
#[verifier::rlimit(50)]
pub fn parse_let(toks: &Vec<Token>, pos: usize) -> (r: Result<(Tree, usize), ParseError>)
    requires
        pos <= toks.len(),
    ensures
        sentence(toks@, pos as int, r),
        ending(r) == let_end(toks@, pos as int),
        yields(r, NodeKind::LetDecl),
        r is Ok ==> kind_at(toks@, pos as int) == Kind::Let,
{
    let mut kids = begin(toks, pos);
    let mut cur = pos;
    cur = expect(toks, Ghost(pos), &mut kids, cur, Kind::Let)?;
    cur = expect_name(toks, Ghost(pos), &mut kids, cur)?;
    cur = expect(toks, Ghost(pos), &mut kids, cur, Kind::Colon)?;
    let sub = parse_type(toks, cur)?;
    cur = attach(toks, Ghost(pos), &mut kids, cur, sub);
    if peek(toks, cur) == Kind::Eq {
        cur = expect(toks, Ghost(pos), &mut kids, cur, Kind::Eq)?;
        let sub = parse_rvalue_or_call(toks, cur)?;
        cur = attach(toks, Ghost(pos), &mut kids, cur, sub);
    }
    cur = expect(toks, Ghost(pos), &mut kids, cur, Kind::Semi)?;
    Ok((Tree::Branch(NodeKind::LetDecl, kids), cur))
}

/// The kind of declaration that the first token selects.
pub open spec fn declaration_kind(first: Kind) -> NodeKind {
    if first == Kind::Type {
        NodeKind::TypeDecl
    } else if first == Kind::Use {
        NodeKind::UseImport
    } else {
        NodeKind::LetDecl
    }
}

/// One declaration: a type alias, an import or a local.
pub fn parse_declaration(toks: &Vec<Token>, pos: usize) -> (r: Result<(Tree, usize), ParseError>)
    requires
        pos <= toks.len(),
    ensures
        sentence(toks@, pos as int, r),
        ending(r) == declaration_end(toks@, pos as int),
        yields(r, declaration_kind(kind_at(toks@, pos as int))),
{
    let k = peek(toks, pos);
    if k == Kind::Type {
        parse_type_decl(toks, pos)
    } else if k == Kind::Use {
        parse_use(toks, pos)
    } else {
        parse_let(toks, pos)
    }
}

/// A whole pattern unit: metavariable declarations, imports, type aliases
/// and locals, in that order, then statements up to the end of the input.
/// Every part may be absent, so the empty input is a unit.
#[verifier::rlimit(50)]
pub fn parse_mir(toks: &Vec<Token>, pos: usize) -> (r: Result<(Tree, usize), ParseError>)
    requires
        pos <= toks.len(),
    ensures
        r matches Ok((t, n)) ==> n == toks.len() && spans(toks@, pos as int, t, n as int),
        ending(r) == mir_end(toks@, pos as int),
        yields(r, NodeKind::Mir),
        pos == toks.len() ==> r is Ok,
{
    let mut kids = begin(toks, pos);
    let mut cur = pos;
    while peek(toks, cur) == Kind::Meta && peek2(toks, cur) == Kind::Bang
        invariant
            covers(toks@, pos as int, kids@, cur as int),
            mir_end(toks@, pos as int) == mir_end(toks@, cur as int),
            ordered(kids@),
            forall|i: int| 0 <= i < kids@.len() ==> section(#[trigger] kids@[i]) <= 0,
        decreases toks.len() - cur,
    {
        let sub = parse_meta(toks, cur)?;
        cur = attach(toks, Ghost(pos), &mut kids, cur, sub);
    }
    while peek(toks, cur) == Kind::Use
        invariant
            covers(toks@, pos as int, kids@, cur as int),
            mir_end(toks@, pos as int) == uses_rest(toks@, cur as int),
            ordered(kids@),
            forall|i: int| 0 <= i < kids@.len() ==> section(#[trigger] kids@[i]) <= 1,
        decreases toks.len() - cur,
    {
        let sub = parse_use(toks, cur)?;
        cur = attach(toks, Ghost(pos), &mut kids, cur, sub);
    }
    while peek(toks, cur) == Kind::Type
        invariant
            covers(toks@, pos as int, kids@, cur as int),
            mir_end(toks@, pos as int) == types_rest(toks@, cur as int),
            ordered(kids@),
            forall|i: int| 0 <= i < kids@.len() ==> section(#[trigger] kids@[i]) <= 2,
        decreases toks.len() - cur,
    {
        let sub = parse_type_decl(toks, cur)?;
        cur = attach(toks, Ghost(pos), &mut kids, cur, sub);
    }
    while peek(toks, cur) == Kind::Let
        invariant
            covers(toks@, pos as int, kids@, cur as int),
            mir_end(toks@, pos as int) == lets_rest(toks@, cur as int),
            ordered(kids@),
            forall|i: int| 0 <= i < kids@.len() ==> section(#[trigger] kids@[i]) <= 3,
        decreases toks.len() - cur,
    {
        let sub = parse_let(toks, cur)?;
        cur = attach(toks, Ghost(pos), &mut kids, cur, sub);
    }
    while cur < toks.len()
        invariant
            covers(toks@, pos as int, kids@, cur as int),
            mir_end(toks@, pos as int) == body_rest(toks@, cur as int),
            ordered(kids@),
        decreases toks.len() - cur,
    {
        let sub = parse_statement(toks, cur)?;
        cur = attach(toks, Ghost(pos), &mut kids, cur, sub);
    }
    Ok((Tree::Branch(NodeKind::Mir, kids), cur))
}

/// The productions of the grammar that can be asked for by name.
#[derive(Clone, Copy, Debug, PartialEq, Eq, Structural)]
pub enum Production {
    PathSegment,
    Path,
    TypePath,
    Type,
    Place,
    Operand,
    CastKind,
    RvalueCast,
    RvalueOrCall,
    Call,
    Assign,
    Statement,
    Block,
    SwitchInt,
    Loop,
    Meta,
    TypeDecl,
    Declaration,
    Mir,
}

/// What the root of a tree of each production is.
pub open spec fn rooted(production: Production, t: Tree) -> bool {
    match production {
        Production::PathSegment => node(t, NodeKind::Segment),
        Production::Path => node(t, NodeKind::Path),
        Production::TypePath => is_path(t),
        Production::Type => is_type(t),
        Production::Place => is_place(t),
        Production::Operand => is_operand(t),
        Production::CastKind => name(t),
        Production::RvalueCast => node(t, NodeKind::Cast),
        Production::RvalueOrCall => is_rvalue(t),
        Production::Call => node(t, NodeKind::Call),
        Production::Assign => node(t, NodeKind::Assign),
        Production::Statement => is_statement(t),
        Production::Block => node(t, NodeKind::Block),
        Production::SwitchInt => node(t, NodeKind::SwitchInt),
        Production::Loop => node(t, NodeKind::Loop),
        Production::Meta => node(t, NodeKind::MetaDecl),
        Production::TypeDecl => node(t, NodeKind::TypeDecl),
        Production::Declaration => node(t, NodeKind::TypeDecl) || node(t, NodeKind::UseImport)
            || node(t, NodeKind::LetDecl),
        Production::Mir => node(t, NodeKind::Mir),
    }
}

/// The productions for which a single name is a whole sentence.
pub open spec fn reads_name(production: Production) -> bool {
    production == Production::PathSegment || production == Production::Path || production
        == Production::TypePath || production == Production::Type || production
        == Production::Place || production == Production::Operand || production
        == Production::CastKind || production == Production::RvalueOrCall
}

/// The productions that start with a path, and so refuse the keyword
/// `crate` as their first token with the error of the reserved word.
pub open spec fn starts_with_path(production: Production) -> bool {
    production == Production::PathSegment || production == Production::Path || production
        == Production::TypePath || production == Production::Type || production
        == Production::Operand || production == Production::Call || production
        == Production::RvalueCast || production == Production::RvalueOrCall
}

/// Where a sentence of `production` that starts at `pos` ends, or why there
/// is none.
pub open spec fn production_end(production: Production, toks: Seq<Token>, pos: int) -> Outcome {
    match production {
        Production::PathSegment => segment_end(toks, pos),
        Production::Path => path_end(toks, pos),
        Production::TypePath => type_path_end(toks, pos),
        Production::Type => type_end(toks, pos),
        Production::Place => place_end(toks, pos),
        Production::Operand => operand_end(toks, pos),
        Production::CastKind => step_name(toks, pos),
        Production::RvalueCast => cast_end(toks, pos),
        Production::RvalueOrCall => rvalue_end(toks, pos),
        Production::Call => call_end(toks, pos),
        Production::Assign => assign_end(toks, pos),
        Production::Statement => statement_end(toks, pos),
        Production::Block => block_end(toks, pos),
        Production::SwitchInt => switch_end(toks, pos),
        Production::Loop => loop_end(toks, pos),
        Production::Meta => meta_end(toks, pos),
        Production::TypeDecl => type_decl_end(toks, pos),
        Production::Declaration => declaration_end(toks, pos),
        Production::Mir => mir_end(toks, pos),
    }
}

/// The verdict on a whole input: accepted if the sentence ends where the
/// input ends, "unexpected token" if tokens are left over, and the error of
/// the production otherwise.
pub open spec fn verdict(len: int, o: Outcome) -> Result<(), ParseError> {
    match o {
        Ok(n) => if n == len {
            Ok(())
        } else {
            Err(ParseError::UnexpectedToken)
        },
        Err(e) => Err(e),
    }
}

/// A result without its tree.
pub open spec fn bare(r: Result<Tree, ParseError>) -> Result<(), ParseError> {
    match r {
        Ok(_) => Ok(()),
        Err(e) => Err(e),
    }
}

/// Reads one sentence of `production` that starts at `pos`, and says where
/// it ends.
#[verifier::rlimit(50)]
pub fn parse_at(production: Production, toks: &Vec<Token>, pos: usize) -> (r: Result<
    (Tree, usize),
    ParseError,
>)
    requires
        pos <= toks.len(),
    ensures
        ending(r) == production_end(production, toks@, pos as int),
        r matches Ok((t, n)) ==> spans(toks@, pos as int, t, n as int) && rooted(production, t),
        r matches Ok((t, n)) ==> production != Production::Mir ==> pos < n,
        r matches Ok((t, n)) ==> production == Production::Mir ==> n == toks.len(),
        production == Production::Mir && pos == toks.len() ==> r is Ok,
        reads_name(production) && is_name(kind_at(toks@, pos as int)) && kind_at(toks@, pos + 1)
            == Kind::End ==> took_one(pos as int, r),
        starts_with_path(production) && pos < toks.len() && kind_at(toks@, pos as int)
            == Kind::Crate ==> r == Err::<(Tree, usize), ParseError>(ParseError::ReservedCrate),
{
    let r = match production {
        Production::PathSegment => parse_segment(toks, pos),
        Production::Path => parse_path(toks, pos),
        Production::TypePath => parse_type_path(toks, pos),
        Production::Type => parse_type(toks, pos),
        Production::Place => parse_place(toks, pos),
        Production::Operand => parse_operand(toks, pos),
        Production::CastKind => {
            let r = parse_cast_kind(toks, pos);
            proof {
                if r is Ok {
                    assert(seq![toks@[pos as int]] =~= toks@.subrange(pos as int, pos + 1));
                }
            }
            r
        },
        Production::RvalueCast => parse_cast(toks, pos),
        Production::RvalueOrCall => parse_rvalue_or_call(toks, pos),
        Production::Call => parse_call(toks, pos),
        Production::Assign => parse_assign(toks, pos),
        Production::Statement => parse_statement(toks, pos),
        Production::Block => parse_block(toks, pos),
        Production::SwitchInt => parse_switch_int(toks, pos),
        Production::Loop => parse_loop(toks, pos),
        Production::Meta => parse_meta(toks, pos),
        Production::TypeDecl => parse_type_decl(toks, pos),
        Production::Declaration => parse_declaration(toks, pos),
        Production::Mir => parse_mir(toks, pos),
    };
    r
}

/// What a whole input parses to under `production`, given what the
/// production read from its start: the tree if the sentence ends where the
/// input ends, and "unexpected token" if tokens are left over.
pub open spec fn whole(len: int, r: Result<(Tree, usize), ParseError>) -> Result<Tree, ParseError> {
    match r {
        Ok((t, n)) => if n == len {
            Ok(t)
        } else {
            Err(ParseError::UnexpectedToken)
        },
        Err(e) => Err(e),
    }
}

/// Accepts the result of a production on a whole input only if nothing is
/// left over.
pub fn complete(toks: &Vec<Token>, r: Result<(Tree, usize), ParseError>) -> (out: Result<
    Tree,
    ParseError,
>)
    ensures
        out == whole(toks.len() as int, r),
{
    match r {
        Ok((t, n)) => {
            if n == toks.len() {
                Ok(t)
            } else {
                Err(ParseError::UnexpectedToken)
            }
        },
        Err(e) => Err(e),
    }
}

/// Parses the whole of `toks` as one sentence of `production`. On success
/// the tree prints as exactly `toks`.
#[verifier::rlimit(50)]
pub fn parse_all(production: Production, toks: &Vec<Token>) -> (r: Result<Tree, ParseError>)
    ensures
        bare(r) == verdict(toks@.len() as int, production_end(production, toks@, 0)),
        r matches Ok(t) ==> printed(t) == toks@ && well_formed(t) && rooted(production, t),
        production == Production::Mir && toks@.len() == 0 ==> r is Ok,
        production != Production::Mir && toks@.len() == 0 ==> r is Err,
        reads_name(production) && toks@.len() == 1 && is_name(toks@[0].kind) ==> r is Ok,
        starts_with_path(production) && toks@.len() > 0 && toks@[0].kind == Kind::Crate ==> r
            == Err::<Tree, ParseError>(ParseError::ReservedCrate),
{
    let r = parse_at(production, toks, 0);
    proof {
        assert(toks@.subrange(0, toks@.len() as int) =~= toks@);
    }
    complete(toks, r)
}

/// What `parse_all` gives for a row of tokens: the verdict of the
/// production on the whole row, and on success a derivation of the grammar,
/// rooted as the production asks, that prints as exactly the row.
pub open spec fn reads(production: Production, toks: Seq<Token>, r: Result<Tree, ParseError>) -> bool {
    &&& bare(r) == verdict(toks.len() as int, production_end(production, toks, 0))
    &&& r matches Ok(t) ==> printed(t) == toks && well_formed(t) && rooted(production, t)
}

/// Cuts `src` into tokens and parses all of them as one sentence of
/// `production`. Where the text lexes, the result is that of `parse_all` on
/// tokens that hold, kind by kind and text by text, what the text lexes to;
/// `Lex` comes where the lexer refuses the text, or where groups are nested
/// deeper than a `usize` counts.
pub fn parse_source(production: Production, src: &str) -> (r: Result<Tree, ParseError>)
    ensures
        match lexed(src@) {
            Some(items) if row_depth(items) <= usize::MAX => exists|toks: Seq<Token>|
                glances(toks) == row_marks(items) && all_classified(toks) && #[trigger] reads(
                    production,
                    toks,
                    r,
                ),
            _ => r == Err::<Tree, ParseError>(ParseError::Lex),
        },
        r matches Ok(t) ==> well_formed(t) && rooted(production, t) && all_classified(printed(t)),
{
    match tokenize(src) {
        Ok(toks) => {
            let r = parse_all(production, &toks);
            proof {
                assert(reads(production, toks@, r));
            }
            r
        },
        Err(e) => Err(e),
    }
}

} // verus!
