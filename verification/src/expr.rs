use vstd::prelude::*;
use crate::accept::{
    aggregate_end, array_end, call_end, cast_end, ending, ending_at, field_init_end, form_end,
    kind_at, list_end, meta_item_end, operand_end, paren_place_end, place_end,
    projection_end, projections_rest, raw_slice_end, reference_end, rvalue_end, signed_end,
    tuple_end,
};
use crate::error::ParseError;
use crate::grammar::{
    is_name, is_operand, is_projection, is_rvalue, name, node, separated, Class,
};
use crate::parse::{
    attach, begin, covers, expect, expect_name, names, parse_type, parse_type_path, peek, peek2, sentence,
    refuses_crate, spans, took_one, lone_name, yields,
};
use crate::token::{Kind, Token};
use crate::tree::{NodeKind, Tree};

verus! {

/// An integer literal with an optional minus sign before it; the sign is kept
/// as written.
pub(crate) fn signed_literal(
    toks: &Vec<Token>,
    Ghost(start): Ghost<usize>,
    kids: &mut Vec<Tree>,
    cur: usize,
) -> (r: Result<usize, ParseError>)
    requires
        covers(toks@, start as int, old(kids)@, cur as int),
    ensures
        ending_at(r) == signed_end(toks@, cur as int),
        r matches Ok(n) ==> covers(toks@, start as int, final(kids)@, n as int) && (if kind_at(
            toks@,
            cur as int,
        ) == Kind::Minus {
            n == cur + 2 && toks[cur + 1].kind == Kind::Literal && final(kids)@ == old(
                kids,
            )@.push(Tree::Leaf(toks[cur as int])).push(Tree::Leaf(toks[cur + 1]))
        } else {
            n == cur + 1 && toks[cur as int].kind == Kind::Literal && final(kids)@ == old(
                kids,
            )@.push(Tree::Leaf(toks[cur as int]))
        }),
{
    let mut cur = cur;
    if peek(toks, cur) == Kind::Minus {
        cur = expect(toks, Ghost(start), kids, cur, Kind::Minus)?;
    }
    expect(toks, Ghost(start), kids, cur, Kind::Literal)
}

/// One projection written after a place: `.field`, `[place]`,
/// `[offset of length]` or `[from:to]`.
#[verifier::rlimit(50)]
pub fn parse_projection(toks: &Vec<Token>, pos: usize) -> (r: Result<(Tree, usize), ParseError>)
    requires
        pos <= toks.len(),
    ensures
        sentence(toks@, pos as int, r),
        ending(r) == projection_end(toks@, pos as int),
        r matches Ok((t, _)) ==> (t matches Tree::Branch(k, _) && (k == NodeKind::Field || k
            == NodeKind::Index || k == NodeKind::OffsetIndex || k == NodeKind::Subslice)),
    decreases toks.len() - pos, 6int,
{
    let mut kids = begin(toks, pos);
    let mut cur = pos;
    if peek(toks, cur) == Kind::Dot {
        cur = expect(toks, Ghost(pos), &mut kids, cur, Kind::Dot)?;
        if peek(toks, cur) == Kind::Literal {
            cur = expect(toks, Ghost(pos), &mut kids, cur, Kind::Literal)?;
        } else {
            cur = expect_name(toks, Ghost(pos), &mut kids, cur)?;
        }
        return Ok((Tree::Branch(NodeKind::Field, kids), cur));
    }
    cur = expect(toks, Ghost(pos), &mut kids, cur, Kind::LBracket)?;
    let k = peek(toks, cur);
    if k == Kind::Literal || k == Kind::Minus {
        cur = signed_literal(toks, Ghost(pos), &mut kids, cur)?;
        if peek(toks, cur) == Kind::Of {
            cur = expect(toks, Ghost(pos), &mut kids, cur, Kind::Of)?;
            cur = expect(toks, Ghost(pos), &mut kids, cur, Kind::Literal)?;
            cur = expect(toks, Ghost(pos), &mut kids, cur, Kind::RBracket)?;
            Ok((Tree::Branch(NodeKind::OffsetIndex, kids), cur))
        } else {
            cur = expect(toks, Ghost(pos), &mut kids, cur, Kind::Colon)?;
            cur = signed_literal(toks, Ghost(pos), &mut kids, cur)?;
            cur = expect(toks, Ghost(pos), &mut kids, cur, Kind::RBracket)?;
            Ok((Tree::Branch(NodeKind::Subslice, kids), cur))
        }
    } else {
        let sub = parse_place(toks, cur)?;
        cur = attach(toks, Ghost(pos), &mut kids, cur, sub);
        cur = expect(toks, Ghost(pos), &mut kids, cur, Kind::RBracket)?;
        Ok((Tree::Branch(NodeKind::Index, kids), cur))
    }
}

/// A place in parentheses, `(place)`, or narrowed to a variant,
/// `(place as Variant)`.
pub fn parse_paren_place(toks: &Vec<Token>, pos: usize) -> (r: Result<(Tree, usize), ParseError>)
    requires
        pos <= toks.len(),
    ensures
        sentence(toks@, pos as int, r),
        ending(r) == paren_place_end(toks@, pos as int),
        r matches Ok((t, _)) ==> (t matches Tree::Branch(k, _) && (k == NodeKind::Paren || k
            == NodeKind::Downcast)),
    decreases toks.len() - pos, 6int,
{
    let mut kids = begin(toks, pos);
    let mut cur = pos;
    cur = expect(toks, Ghost(pos), &mut kids, cur, Kind::LParen)?;
    let sub = parse_place(toks, cur)?;
    cur = attach(toks, Ghost(pos), &mut kids, cur, sub);
    if peek(toks, cur) == Kind::As {
        cur = expect(toks, Ghost(pos), &mut kids, cur, Kind::As)?;
        cur = expect_name(toks, Ghost(pos), &mut kids, cur)?;
        cur = expect(toks, Ghost(pos), &mut kids, cur, Kind::RParen)?;
        Ok((Tree::Branch(NodeKind::Downcast, kids), cur))
    } else {
        cur = expect(toks, Ghost(pos), &mut kids, cur, Kind::RParen)?;
        Ok((Tree::Branch(NodeKind::Paren, kids), cur))
    }
}

/// A place: `*place`, or a variable or a place in parentheses followed by
/// any number of projections. A token that starts no projection ends the
/// place and is left for the caller.
#[verifier::rlimit(50)]
pub fn parse_place(toks: &Vec<Token>, pos: usize) -> (r: Result<(Tree, usize), ParseError>)
    requires
        pos <= toks.len(),
    ensures
        sentence(toks@, pos as int, r),
        ending(r) == place_end(toks@, pos as int),
        r matches Ok((t, _)) ==> (t matches Tree::Branch(k, _) && k == (if kind_at(
            toks@,
            pos as int,
        ) == Kind::Star {
            NodeKind::Deref
        } else {
            NodeKind::Place
        })),
        r matches Ok((_, n)) ==> kind_at(toks@, n as int) != Kind::Dot && kind_at(toks@, n as int)
            != Kind::LBracket,
        is_name(kind_at(toks@, pos as int)) && kind_at(toks@, pos + 1) != Kind::Dot && kind_at(
            toks@,
            pos + 1,
        ) != Kind::LBracket ==> took_one(pos as int, r),
    decreases toks.len() - pos, 8int,
{
    let mut kids = begin(toks, pos);
    let mut cur = pos;
    if peek(toks, cur) == Kind::Star {
        cur = expect(toks, Ghost(pos), &mut kids, cur, Kind::Star)?;
        let sub = parse_place(toks, cur)?;
        cur = attach(toks, Ghost(pos), &mut kids, cur, sub);
        return Ok((Tree::Branch(NodeKind::Deref, kids), cur));
    }
    if peek(toks, cur) == Kind::LParen {
        let sub = parse_paren_place(toks, cur)?;
        cur = attach(toks, Ghost(pos), &mut kids, cur, sub);
    } else {
        cur = expect_name(toks, Ghost(pos), &mut kids, cur)?;
    }
    while peek(toks, cur) == Kind::Dot || peek(toks, cur) == Kind::LBracket
        invariant
            covers(toks@, pos as int, kids@, cur as int),
            pos < cur,
            kind_at(toks@, pos as int) != Kind::Star,
            is_name(kind_at(toks@, pos as int)) && kind_at(toks@, pos + 1) != Kind::Dot && kind_at(
                toks@,
                pos + 1,
            ) != Kind::LBracket ==> cur == pos + 1,
            kids@.len() >= 1,
            name(kids@[0]) || node(kids@[0], NodeKind::Paren) || node(kids@[0], NodeKind::Downcast),
            forall|i: int| 1 <= i < kids@.len() ==> is_projection(#[trigger] kids@[i]),
            place_end(toks@, pos as int) == projections_rest(toks@, cur as int),
        decreases toks.len() - cur,
    {
        let sub = parse_projection(toks, cur)?;
        cur = attach(toks, Ghost(pos), &mut kids, cur, sub);
    }
    Ok((Tree::Branch(NodeKind::Place, kids), cur))
}

/// An operand: `copy place`, `move place`, `const literal`, a metavariable
/// `$T`, or a bare path.
#[verifier::rlimit(50)]
pub fn parse_operand(toks: &Vec<Token>, pos: usize) -> (r: Result<(Tree, usize), ParseError>)
    requires
        pos <= toks.len(),
    ensures
        sentence(toks@, pos as int, r),
        ending(r) == operand_end(toks@, pos as int),
        r matches Ok((t, _)) ==> (t matches Tree::Branch(k, _) && k == operand_kind(
            kind_at(toks@, pos as int),
            kind_at(toks@, pos + 1),
        )),
        lone_name(toks@, pos as int) ==> took_one(pos as int, r),
        refuses_crate(toks@, pos as int, r),
    decreases toks.len() - pos, 9int,
{
    let k = peek(toks, pos);
    let mut kids = begin(toks, pos);
    let mut cur = pos;
    if k == Kind::Copy {
        cur = expect(toks, Ghost(pos), &mut kids, cur, Kind::Copy)?;
        let sub = parse_place(toks, cur)?;
        cur = attach(toks, Ghost(pos), &mut kids, cur, sub);
        Ok((Tree::Branch(NodeKind::Copy, kids), cur))
    } else if k == Kind::Move {
        cur = expect(toks, Ghost(pos), &mut kids, cur, Kind::Move)?;
        let sub = parse_place(toks, cur)?;
        cur = attach(toks, Ghost(pos), &mut kids, cur, sub);
        Ok((Tree::Branch(NodeKind::Move, kids), cur))
    } else if k == Kind::Const {
        cur = expect(toks, Ghost(pos), &mut kids, cur, Kind::Const)?;
        if peek(toks, cur) == Kind::Bool {
            cur = expect(toks, Ghost(pos), &mut kids, cur, Kind::Bool)?;
        } else {
            cur = signed_literal(toks, Ghost(pos), &mut kids, cur)?;
        }
        Ok((Tree::Branch(NodeKind::Constant, kids), cur))
    } else if k == Kind::Dollar && names(peek2(toks, pos)) {
        cur = expect(toks, Ghost(pos), &mut kids, cur, Kind::Dollar)?;
        cur = expect_name(toks, Ghost(pos), &mut kids, cur)?;
        Ok((Tree::Branch(NodeKind::MetaVar, kids), cur))
    } else {
        parse_type_path(toks, pos)
    }
}

/// The kind of operand that the first two tokens select.
pub open spec fn operand_kind(first: Kind, second: Kind) -> NodeKind {
    if first == Kind::Copy {
        NodeKind::Copy
    } else if first == Kind::Move {
        NodeKind::Move
    } else if first == Kind::Const {
        NodeKind::Constant
    } else if first == Kind::Dollar && is_name(second) {
        NodeKind::MetaVar
    } else if first == Kind::Lt {
        NodeKind::QualifiedPath
    } else {
        NodeKind::Path
    }
}

/// One field of an aggregate: `name: operand`.
pub fn parse_field_init(toks: &Vec<Token>, pos: usize) -> (r: Result<(Tree, usize), ParseError>)
    requires
        pos <= toks.len(),
    ensures
        sentence(toks@, pos as int, r),
        ending(r) == field_init_end(toks@, pos as int),
        yields(r, NodeKind::FieldInit),
    decreases toks.len() - pos, 9int,
{
    let mut kids = begin(toks, pos);
    let mut cur = pos;
    cur = expect_name(toks, Ghost(pos), &mut kids, cur)?;
    cur = expect(toks, Ghost(pos), &mut kids, cur, Kind::Colon)?;
    let sub = parse_operand(toks, cur)?;
    cur = attach(toks, Ghost(pos), &mut kids, cur, sub);
    Ok((Tree::Branch(NodeKind::FieldInit, kids), cur))
}

/// One item of a metavariable declaration: `$name:kind`.
pub fn parse_meta_item(toks: &Vec<Token>, pos: usize) -> (r: Result<(Tree, usize), ParseError>)
    requires
        pos <= toks.len(),
    ensures
        sentence(toks@, pos as int, r),
        ending(r) == meta_item_end(toks@, pos as int),
        yields(r, NodeKind::MetaItem),
{
    let mut kids = begin(toks, pos);
    let mut cur = pos;
    cur = expect(toks, Ghost(pos), &mut kids, cur, Kind::Dollar)?;
    cur = expect_name(toks, Ghost(pos), &mut kids, cur)?;
    cur = expect(toks, Ghost(pos), &mut kids, cur, Kind::Colon)?;
    cur = expect_name(toks, Ghost(pos), &mut kids, cur)?;
    Ok((Tree::Branch(NodeKind::MetaItem, kids), cur))
}

/// Items of one class separated by commas, up to a token of kind `close`,
/// which is left for the caller. A comma may stand after the last item.
#[verifier::rlimit(50)]
pub(crate) fn item_list(
    toks: &Vec<Token>,
    Ghost(start): Ghost<usize>,
    kids: &mut Vec<Tree>,
    at: usize,
    close: Kind,
    cl: Class,
) -> (r: Result<usize, ParseError>)
    requires
        covers(toks@, start as int, old(kids)@, at as int),
    ensures
        ending_at(r) == list_end(toks@, at as int, close, cl),
        r matches Ok(n) ==> {
            &&& at <= n
            &&& covers(toks@, start as int, final(kids)@, n as int)
            &&& old(kids)@.len() <= final(kids)@.len()
            &&& forall|i: int| 0 <= i < old(kids)@.len() ==> final(kids)@[i] == old(kids)@[i]
            &&& separated(final(kids)@, old(kids)@.len() as int, final(kids)@.len() as int, cl)
        },
    decreases toks.len() - at, 10int,
{
    let mut cur = at;
    let ghost base = kids@.len() as int;
    let mut more = true;
    while more && peek(toks, cur) != close
        invariant
            at <= cur,
            covers(toks@, start as int, kids@, cur as int),
            base == old(kids)@.len(),
            base <= kids@.len(),
            forall|i: int| 0 <= i < base ==> kids@[i] == old(kids)@[i],
            separated(kids@, base, kids@.len() as int, cl),
            more ==> (kids@.len() - base) % 2 == 0,
            more ==> list_end(toks@, at as int, close, cl) == list_end(toks@, cur as int, close, cl),
            !more ==> list_end(toks@, at as int, close, cl) == Ok::<int, ParseError>(cur as int),
        decreases toks.len() - cur,
    {
        let item = match cl {
            Class::Type => parse_type(toks, cur),
            Class::Operand => parse_operand(toks, cur),
            Class::FieldInit => parse_field_init(toks, cur),
            Class::MetaItem => parse_meta_item(toks, cur),
        };
        let sub = item?;
        cur = attach(toks, Ghost(start), kids, cur, sub);
        if peek(toks, cur) == Kind::Comma {
            cur = expect(toks, Ghost(start), kids, cur, Kind::Comma)?;
        } else {
            more = false;
        }
    }
    Ok(cur)
}

/// A call: the path of the callee and its operands in parentheses.
pub fn parse_call(toks: &Vec<Token>, pos: usize) -> (r: Result<(Tree, usize), ParseError>)
    requires
        pos <= toks.len(),
    ensures
        sentence(toks@, pos as int, r),
        ending(r) == call_end(toks@, pos as int),
        yields(r, NodeKind::Call),
        refuses_crate(toks@, pos as int, r),
{
    let mut kids = begin(toks, pos);
    let mut cur = pos;
    let sub = parse_type_path(toks, cur)?;
    cur = attach(toks, Ghost(pos), &mut kids, cur, sub);
    cur = expect(toks, Ghost(pos), &mut kids, cur, Kind::LParen)?;
    cur = item_list(toks, Ghost(pos), &mut kids, cur, Kind::RParen, Class::Operand)?;
    cur = expect(toks, Ghost(pos), &mut kids, cur, Kind::RParen)?;
    Ok((Tree::Branch(NodeKind::Call, kids), cur))
}

/// The kind of a cast: one identifier, kept as written.
pub fn parse_cast_kind(toks: &Vec<Token>, pos: usize) -> (r: Result<(Tree, usize), ParseError>)
    requires
        pos <= toks.len(),
    ensures
        match r {
            Ok((t, n)) => is_name(kind_at(toks@, pos as int)) && pos < toks.len() && n == pos + 1
                && t == Tree::Leaf(toks[pos as int]),
            Err(e) => !(is_name(kind_at(toks@, pos as int)) && pos < toks.len()) && e == (
            if pos < toks.len() {
                ParseError::UnexpectedToken
            } else {
                ParseError::UnexpectedEnd
            }),
        },
{
    if pos < toks.len() {
        if names(toks[pos].kind) {
            Ok((Tree::Leaf(toks[pos].dup()), pos + 1))
        } else {
            Err(ParseError::UnexpectedToken)
        }
    } else {
        Err(ParseError::UnexpectedEnd)
    }
}

/// A cast: `operand as Type (Kind)`. The kind in parentheses is mandatory.
#[verifier::rlimit(50)]
pub fn parse_cast(toks: &Vec<Token>, pos: usize) -> (r: Result<(Tree, usize), ParseError>)
    requires
        pos <= toks.len(),
    ensures
        sentence(toks@, pos as int, r),
        ending(r) == cast_end(toks@, pos as int),
        yields(r, NodeKind::Cast),
        refuses_crate(toks@, pos as int, r),
{
    let mut kids = begin(toks, pos);
    let mut cur = pos;
    let sub = parse_operand(toks, cur)?;
    cur = attach(toks, Ghost(pos), &mut kids, cur, sub);
    cur = expect(toks, Ghost(pos), &mut kids, cur, Kind::As)?;
    let sub = parse_type(toks, cur)?;
    cur = attach(toks, Ghost(pos), &mut kids, cur, sub);
    if cur >= toks.len() {
        return Err(ParseError::EndExpectedParens);
    }
    cur = expect(toks, Ghost(pos), &mut kids, cur, Kind::LParen)?;
    cur = expect_name(toks, Ghost(pos), &mut kids, cur)?;
    cur = expect(toks, Ghost(pos), &mut kids, cur, Kind::RParen)?;
    Ok((Tree::Branch(NodeKind::Cast, kids), cur))
}

/// A struct or variant literal: `Name { field: operand, ... }`.
pub fn parse_aggregate(toks: &Vec<Token>, pos: usize) -> (r: Result<(Tree, usize), ParseError>)
    requires
        pos <= toks.len(),
    ensures
        sentence(toks@, pos as int, r),
        ending(r) == aggregate_end(toks@, pos as int),
        yields(r, NodeKind::Aggregate),
        refuses_crate(toks@, pos as int, r),
{
    let mut kids = begin(toks, pos);
    let mut cur = pos;
    let sub = parse_type_path(toks, cur)?;
    cur = attach(toks, Ghost(pos), &mut kids, cur, sub);
    cur = expect(toks, Ghost(pos), &mut kids, cur, Kind::LBrace)?;
    cur = item_list(toks, Ghost(pos), &mut kids, cur, Kind::RBrace, Class::FieldInit)?;
    cur = expect(toks, Ghost(pos), &mut kids, cur, Kind::RBrace)?;
    Ok((Tree::Branch(NodeKind::Aggregate, kids), cur))
}

/// The kind of tree that an rvalue-or-call is, as far as its first token
/// decides it.
pub open spec fn leading_form(first: Kind, k: NodeKind) -> bool {
    if first == Kind::Amp {
        k == NodeKind::Ref || k == NodeKind::RawRef
    } else if first == Kind::LBracket {
        k == NodeKind::ArrayRepeat || k == NodeKind::ArrayList
    } else if first == Kind::LParen {
        k == NodeKind::Tuple
    } else if first == Kind::Star {
        k == NodeKind::RawSliceFrom
    } else if first == Kind::Underscore {
        k == NodeKind::Any
    } else {
        k != NodeKind::Ref && k != NodeKind::RawRef && k != NodeKind::ArrayRepeat && k
            != NodeKind::ArrayList && k != NodeKind::Tuple && k != NodeKind::RawSliceFrom && k
            != NodeKind::Any
    }
}

/// A reference to a place: `&place`, `&mut place`, `&raw const place` or
/// `&raw mut place`.
pub fn parse_reference(toks: &Vec<Token>, pos: usize) -> (r: Result<(Tree, usize), ParseError>)
    requires
        pos <= toks.len(),
    ensures
        sentence(toks@, pos as int, r),
        ending(r) == reference_end(toks@, pos as int),
        r matches Ok((t, _)) ==> node(t, NodeKind::Ref) || node(t, NodeKind::RawRef),
        r matches Ok((t, _)) ==> (node(t, NodeKind::RawRef) <==> kind_at(toks@, pos + 1)
            == Kind::Raw && (kind_at(toks@, pos + 2) == Kind::Const || kind_at(toks@, pos + 2)
            == Kind::Mut)),
{
    let mut kids = begin(toks, pos);
    let mut cur = pos;
    cur = expect(toks, Ghost(pos), &mut kids, cur, Kind::Amp)?;
    let after = peek2(toks, cur);
    if peek(toks, cur) == Kind::Raw && (after == Kind::Const || after == Kind::Mut) {
        cur = expect(toks, Ghost(pos), &mut kids, cur, Kind::Raw)?;
        if peek(toks, cur) == Kind::Mut {
            cur = expect(toks, Ghost(pos), &mut kids, cur, Kind::Mut)?;
        } else {
            cur = expect(toks, Ghost(pos), &mut kids, cur, Kind::Const)?;
        }
        let sub = parse_place(toks, cur)?;
        cur = attach(toks, Ghost(pos), &mut kids, cur, sub);
        return Ok((Tree::Branch(NodeKind::RawRef, kids), cur));
    }
    if peek(toks, cur) == Kind::Mut {
        cur = expect(toks, Ghost(pos), &mut kids, cur, Kind::Mut)?;
    }
    let sub = parse_place(toks, cur)?;
    cur = attach(toks, Ghost(pos), &mut kids, cur, sub);
    Ok((Tree::Branch(NodeKind::Ref, kids), cur))
}

/// An array: `[operand; count]`, or operands in brackets.
#[verifier::rlimit(50)]
pub fn parse_array(toks: &Vec<Token>, pos: usize) -> (r: Result<(Tree, usize), ParseError>)
    requires
        pos <= toks.len(),
    ensures
        sentence(toks@, pos as int, r),
        ending(r) == array_end(toks@, pos as int),
        r matches Ok((t, _)) ==> node(t, NodeKind::ArrayRepeat) || node(t, NodeKind::ArrayList),
{
    let mut kids = begin(toks, pos);
    let mut cur = pos;
    cur = expect(toks, Ghost(pos), &mut kids, cur, Kind::LBracket)?;
    if peek(toks, cur) != Kind::RBracket {
        let sub = parse_operand(toks, cur)?;
        cur = attach(toks, Ghost(pos), &mut kids, cur, sub);
        if peek(toks, cur) == Kind::Semi {
            cur = expect(toks, Ghost(pos), &mut kids, cur, Kind::Semi)?;
            cur = expect(toks, Ghost(pos), &mut kids, cur, Kind::Literal)?;
            cur = expect(toks, Ghost(pos), &mut kids, cur, Kind::RBracket)?;
            return Ok((Tree::Branch(NodeKind::ArrayRepeat, kids), cur));
        }
        if peek(toks, cur) == Kind::Comma {
            cur = expect(toks, Ghost(pos), &mut kids, cur, Kind::Comma)?;
            cur = item_list(toks, Ghost(pos), &mut kids, cur, Kind::RBracket, Class::Operand)?;
        }
    }
    cur = expect(toks, Ghost(pos), &mut kids, cur, Kind::RBracket)?;
    Ok((Tree::Branch(NodeKind::ArrayList, kids), cur))
}

/// A tuple: operands in parentheses.
pub fn parse_tuple(toks: &Vec<Token>, pos: usize) -> (r: Result<(Tree, usize), ParseError>)
    requires
        pos <= toks.len(),
    ensures
        sentence(toks@, pos as int, r),
        ending(r) == tuple_end(toks@, pos as int),
        yields(r, NodeKind::Tuple),
{
    let mut kids = begin(toks, pos);
    let mut cur = pos;
    cur = expect(toks, Ghost(pos), &mut kids, cur, Kind::LParen)?;
    cur = item_list(toks, Ghost(pos), &mut kids, cur, Kind::RParen, Class::Operand)?;
    cur = expect(toks, Ghost(pos), &mut kids, cur, Kind::RParen)?;
    Ok((Tree::Branch(NodeKind::Tuple, kids), cur))
}

/// A raw slice or pointer made from a data pointer and its metadata:
/// `*const Type from (data, metadata)`.
#[verifier::rlimit(50)]
pub fn parse_raw_slice(toks: &Vec<Token>, pos: usize) -> (r: Result<(Tree, usize), ParseError>)
    requires
        pos <= toks.len(),
    ensures
        sentence(toks@, pos as int, r),
        ending(r) == raw_slice_end(toks@, pos as int),
        yields(r, NodeKind::RawSliceFrom),
{
    let mut kids = begin(toks, pos);
    let mut cur = pos;
    cur = expect(toks, Ghost(pos), &mut kids, cur, Kind::Star)?;
    if peek(toks, cur) == Kind::Mut {
        cur = expect(toks, Ghost(pos), &mut kids, cur, Kind::Mut)?;
    } else {
        cur = expect(toks, Ghost(pos), &mut kids, cur, Kind::Const)?;
    }
    let sub = parse_type(toks, cur)?;
    cur = attach(toks, Ghost(pos), &mut kids, cur, sub);
    cur = expect(toks, Ghost(pos), &mut kids, cur, Kind::From)?;
    cur = expect(toks, Ghost(pos), &mut kids, cur, Kind::LParen)?;
    let sub = parse_operand(toks, cur)?;
    cur = attach(toks, Ghost(pos), &mut kids, cur, sub);
    cur = expect(toks, Ghost(pos), &mut kids, cur, Kind::Comma)?;
    let sub = parse_operand(toks, cur)?;
    cur = attach(toks, Ghost(pos), &mut kids, cur, sub);
    cur = expect(toks, Ghost(pos), &mut kids, cur, Kind::RParen)?;
    Ok((Tree::Branch(NodeKind::RawSliceFrom, kids), cur))
}

/// An rvalue or a call. The forms that a leading token selects are tried
/// first. Otherwise an operand or a path is read, and the token after it
/// decides: `(` makes it a call, `{` an aggregate, `as` a cast, and anything
/// else leaves the operand as it is.
#[verifier::rlimit(50)]
pub fn parse_rvalue_or_call(toks: &Vec<Token>, pos: usize) -> (r: Result<
    (Tree, usize),
    ParseError,
>)
    requires
        pos <= toks.len(),
    ensures
        sentence(toks@, pos as int, r),
        ending(r) == rvalue_end(toks@, pos as int),
        r matches Ok((t, n)) ==> follows_path(t) ==> kind_at(toks@, n as int) != Kind::LParen
            && kind_at(toks@, n as int) != Kind::LBrace && kind_at(toks@, n as int) != Kind::As,
        r matches Ok((t, _)) ==> (t matches Tree::Branch(k, _) && leading_form(
            kind_at(toks@, pos as int),
            k,
        )),
        r matches Ok((t, _)) ==> is_rvalue(t),
        refuses_crate(toks@, pos as int, r),
        lone_name(toks@, pos as int) && kind_at(toks@, pos + 1) != Kind::As && kind_at(
            toks@,
            pos + 1,
        ) != Kind::LParen && kind_at(toks@, pos + 1) != Kind::LBrace ==> took_one(pos as int, r),
{
    let k = peek(toks, pos);
    if k == Kind::Amp {
        parse_reference(toks, pos)
    } else if k == Kind::LBracket {
        parse_array(toks, pos)
    } else if k == Kind::LParen {
        parse_tuple(toks, pos)
    } else if k == Kind::Star {
        parse_raw_slice(toks, pos)
    } else if k == Kind::Underscore {
        let mut kids = begin(toks, pos);
        let cur = expect(toks, Ghost(pos), &mut kids, pos, Kind::Underscore)?;
        Ok((Tree::Branch(NodeKind::Any, kids), cur))
    } else {
        let operand = parse_operand(toks, pos)?;
        choose_form(toks, pos, operand)
    }
}

/// Decides what an operand read at `pos` is the start of, by the token that
/// follows it: with `(` after a path the whole is a call, with `{` an
/// aggregate, with `as` a cast; otherwise the operand stands for itself.
#[verifier::rlimit(50)]
pub fn choose_form(toks: &Vec<Token>, pos: usize, operand: (Tree, usize)) -> (r: Result<
    (Tree, usize),
    ParseError,
>)
    requires
        pos < operand.1,
        spans(toks@, pos as int, operand.0, operand.1 as int),
        is_operand(operand.0),
    ensures
        sentence(toks@, pos as int, r),
        ending(r) == form_end(toks@, pos as int, operand.1 as int, follows_path(operand.0)),
        r matches Ok((t, _)) ==> is_rvalue(t),
        follows_path(operand.0) && kind_at(toks@, operand.1 as int) == Kind::LParen ==> yields(
            r,
            NodeKind::Call,
        ),
        follows_path(operand.0) && kind_at(toks@, operand.1 as int) == Kind::LBrace ==> yields(
            r,
            NodeKind::Aggregate,
        ),
        kind_at(toks@, operand.1 as int) == Kind::As ==> yields(r, NodeKind::Cast),
        !(follows_path(operand.0) && (kind_at(toks@, operand.1 as int) == Kind::LParen || kind_at(
            toks@,
            operand.1 as int,
        ) == Kind::LBrace)) && kind_at(toks@, operand.1 as int) != Kind::As ==> r == Ok::<
            (Tree, usize),
            ParseError,
        >(operand),
{
    let next = peek(toks, operand.1);
    let is_path = match &operand.0 {
        Tree::Branch(k, _) => *k == NodeKind::Path || *k == NodeKind::QualifiedPath,
        Tree::Leaf(_) => false,
    };
    if next == Kind::As {
        parse_cast(toks, pos)
    } else if is_path && next == Kind::LParen {
        parse_call(toks, pos)
    } else if is_path && next == Kind::LBrace {
        parse_aggregate(toks, pos)
    } else {
        Ok(operand)
    }
}

/// Whether a tree is a plain or a qualified path.
pub open spec fn follows_path(t: Tree) -> bool {
    t matches Tree::Branch(k, _) && (k == NodeKind::Path || k == NodeKind::QualifiedPath)
}

} // verus!
