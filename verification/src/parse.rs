use vstd::prelude::*;
use crate::accept::{
    chain_rest, ending, ending_at, kind_at, path_end, segment_end, step, step_name, type_end,
    type_path_end,
};
use crate::error::ParseError;
use crate::expr::item_list;
use crate::grammar::{chain, node, tok, is_name, is_type, tail, well_formed, Class};
use crate::token::{Kind, Token};
use crate::tree::{flat, lemma_flat_push, printed, NodeKind, Tree};

verus! {

/// The tree is a derivation of the grammar and prints as exactly the tokens
/// from `from` up to `to`.
pub open spec fn spans(toks: Seq<Token>, from: int, t: Tree, to: int) -> bool {
    0 <= from <= to <= toks.len() && printed(t) == toks.subrange(from, to) && well_formed(t)
}

/// The trees of the row are derivations of the grammar, and the row prints as
/// exactly the tokens from `from` up to `to`.
pub open spec fn covers(toks: Seq<Token>, from: int, kids: Seq<Tree>, to: int) -> bool {
    &&& 0 <= from <= to <= toks.len()
    &&& flat(kids) == toks.subrange(from, to)
    &&& forall|i: int| 0 <= i < kids.len() ==> well_formed(#[trigger] kids[i])
}

/// Whether a token of this kind can serve as a name.
pub fn names(k: Kind) -> (r: bool)
    ensures
        r == is_name(k),
{
    k == Kind::Ident || k == Kind::Meta || k == Kind::From || k == Kind::Of || k == Kind::Raw || k
        == Kind::Drop || k == Kind::SwitchInt
}

/// The token at `pos` is a name that nothing continues into a longer path:
/// neither generic arguments nor `::` follow it.
pub open spec fn lone_name(toks: Seq<Token>, pos: int) -> bool {
    is_name(kind_at(toks, pos)) && kind_at(toks, pos + 1) != Kind::Lt && !(kind_at(toks, pos + 1)
        == Kind::Colon && kind_at(toks, pos + 2) == Kind::Colon)
}

/// The keyword `crate` at `pos` is refused with the error of the reserved
/// word.
pub open spec fn refuses_crate(toks: Seq<Token>, pos: int, r: Result<(Tree, usize), ParseError>) -> bool {
    kind_at(toks, pos) == Kind::Crate && pos < toks.len() ==> r == Err::<(Tree, usize), ParseError>(
        ParseError::ReservedCrate,
    )
}

/// The production read exactly one token.
pub open spec fn took_one(pos: int, r: Result<(Tree, usize), ParseError>) -> bool {
    r matches Ok((_, n)) && n == pos + 1
}

/// What every production promises of a success: it consumed at least one
/// token, and its tree prints as exactly the tokens it consumed.
pub open spec fn sentence(toks: Seq<Token>, pos: int, r: Result<(Tree, usize), ParseError>) -> bool {
    r matches Ok((t, n)) ==> pos < n && spans(toks, pos, t, n as int)
}

/// A success is a branch of kind `k`.
pub open spec fn yields(r: Result<(Tree, usize), ParseError>, k: NodeKind) -> bool {
    r matches Ok((t, _)) ==> (t matches Tree::Branch(kk, _) && kk == k)
}

pub(crate) fn peek(toks: &Vec<Token>, at: usize) -> (k: Kind)
    ensures
        k == kind_at(toks@, at as int),
{
    if at < toks.len() {
        toks[at].kind
    } else {
        Kind::End
    }
}

pub(crate) fn peek2(toks: &Vec<Token>, at: usize) -> (k: Kind)
    ensures
        k == kind_at(toks@, at + 1),
{
    if at < toks.len() {
        peek(toks, at + 1)
    } else {
        Kind::End
    }
}

pub(crate) fn begin(toks: &Vec<Token>, pos: usize) -> (kids: Vec<Tree>)
    requires
        pos <= toks.len(),
    ensures
        kids@.len() == 0,
        covers(toks@, pos as int, kids@, pos as int),
{
    let kids: Vec<Tree> = Vec::new();
    assert(flat(kids@) =~= toks@.subrange(pos as int, pos as int));
    kids
}

pub(crate) fn expect(
    toks: &Vec<Token>,
    Ghost(start): Ghost<usize>,
    kids: &mut Vec<Tree>,
    cur: usize,
    kind: Kind,
) -> (r: Result<usize, ParseError>)
    requires
        covers(toks@, start as int, old(kids)@, cur as int),
    ensures
        ending_at(r) == step(toks@, cur as int, kind),
        match r {
            Ok(n) => cur < toks.len() && toks[cur as int].kind == kind && n == cur + 1
                && final(kids)@ == old(kids)@.push(Tree::Leaf(toks[cur as int]))
                && covers(toks@, start as int, final(kids)@, n as int),
            Err(e) => !(cur < toks.len() && toks[cur as int].kind == kind) && e == (if cur
                < toks.len() {
                ParseError::UnexpectedToken
            } else {
                ParseError::UnexpectedEnd
            }),
        },
{
    if cur < toks.len() {
        if toks[cur].kind == kind {
            let t = toks[cur].dup();
            proof {
                lemma_flat_push(kids@, Tree::Leaf(t));
                assert(toks@.subrange(start as int, cur as int) + seq![t] =~= toks@.subrange(
                    start as int,
                    cur + 1,
                ));
            }
            kids.push(Tree::Leaf(t));
            Ok(cur + 1)
        } else {
            Err(ParseError::UnexpectedToken)
        }
    } else {
        Err(ParseError::UnexpectedEnd)
    }
}

/// Takes the token at `cur` if it can serve as a name.
pub(crate) fn expect_name(
    toks: &Vec<Token>,
    Ghost(start): Ghost<usize>,
    kids: &mut Vec<Tree>,
    cur: usize,
) -> (r: Result<usize, ParseError>)
    requires
        covers(toks@, start as int, old(kids)@, cur as int),
    ensures
        ending_at(r) == step_name(toks@, cur as int),
        match r {
            Ok(n) => cur < toks.len() && is_name(toks[cur as int].kind) && n == cur + 1
                && final(kids)@ == old(kids)@.push(Tree::Leaf(toks[cur as int]))
                && covers(toks@, start as int, final(kids)@, n as int),
            Err(e) => !(cur < toks.len() && is_name(toks[cur as int].kind)) && e == (if cur
                < toks.len() {
                ParseError::UnexpectedToken
            } else {
                ParseError::UnexpectedEnd
            }),
        },
{
    if cur < toks.len() {
        if names(toks[cur].kind) {
            expect(toks, Ghost(start), kids, cur, toks[cur].kind)
        } else {
            Err(ParseError::UnexpectedToken)
        }
    } else {
        Err(ParseError::UnexpectedEnd)
    }
}

pub(crate) fn attach(
    toks: &Vec<Token>,
    Ghost(start): Ghost<usize>,
    kids: &mut Vec<Tree>,
    cur: usize,
    sub: (Tree, usize),
) -> (n: usize)
    requires
        covers(toks@, start as int, old(kids)@, cur as int),
        spans(toks@, cur as int, sub.0, sub.1 as int),
    ensures
        n == sub.1,
        final(kids)@ == old(kids)@.push(sub.0),
        covers(toks@, start as int, final(kids)@, n as int),
{
    proof {
        lemma_flat_push(kids@, sub.0);
        assert(toks@.subrange(start as int, cur as int) + toks@.subrange(cur as int, sub.1 as int)
            =~= toks@.subrange(start as int, sub.1 as int));
    }
    kids.push(sub.0);
    sub.1
}

/// One segment of a path: an identifier, with generic arguments in angle
/// brackets if any follow it.
#[verifier::rlimit(50)]
pub fn parse_segment(toks: &Vec<Token>, pos: usize) -> (r: Result<(Tree, usize), ParseError>)
    requires
        pos <= toks.len(),
    ensures
        sentence(toks@, pos as int, r),
        ending(r) == segment_end(toks@, pos as int),
        yields(r, NodeKind::Segment),
        kind_at(toks@, pos as int) == Kind::End ==> r == Err::<(Tree, usize), ParseError>(
            ParseError::EndExpectedIdent,
        ),
        kind_at(toks@, pos as int) == Kind::Crate && pos < toks.len() ==> r == Err::<
            (Tree, usize),
            ParseError,
        >(ParseError::ReservedCrate),
        r is Ok ==> is_name(kind_at(toks@, pos as int)),
        is_name(kind_at(toks@, pos as int)) && kind_at(toks@, pos + 1) != Kind::Lt ==> took_one(
            pos as int,
            r,
        ),
    decreases toks.len() - pos, 0int,
{
    let mut kids = begin(toks, pos);
    let mut cur = pos;
    if cur >= toks.len() {
        return Err(ParseError::EndExpectedIdent);
    }
    let k = peek(toks, cur);
    if k == Kind::Crate {
        return Err(ParseError::ReservedCrate);
    }
    if k == Kind::End {
        return Err(ParseError::EndExpectedIdent);
    }
    cur = expect_name(toks, Ghost(pos), &mut kids, cur)?;
    if peek(toks, cur) == Kind::Lt {
        cur = expect(toks, Ghost(pos), &mut kids, cur, Kind::Lt)?;
        cur = item_list(toks, Ghost(pos), &mut kids, cur, Kind::Gt, Class::Type)?;
        cur = expect(toks, Ghost(pos), &mut kids, cur, Kind::Gt)?;
    }
    Ok((Tree::Branch(NodeKind::Segment, kids), cur))
}

/// A plain path: segments separated by `::`, after `$crate::` if the path
/// starts with the self-reference marker.
#[verifier::rlimit(50)]
pub fn parse_path(toks: &Vec<Token>, pos: usize) -> (r: Result<(Tree, usize), ParseError>)
    requires
        pos <= toks.len(),
    ensures
        sentence(toks@, pos as int, r),
        ending(r) == path_end(toks@, pos as int),
        yields(r, NodeKind::Path),
        lone_name(toks@, pos as int) ==> took_one(pos as int, r),
        kind_at(toks@, pos as int) == Kind::Crate && pos < toks.len() ==> r == Err::<
            (Tree, usize),
            ParseError,
        >(ParseError::ReservedCrate),
        kind_at(toks@, pos as int) == Kind::Dollar && kind_at(toks@, pos + 1) == Kind::Crate ==> {
            let sep = kind_at(toks@, pos + 2) == Kind::Colon && kind_at(toks@, pos + 3)
                == Kind::Colon;
            &&& !sep ==> r == Err::<(Tree, usize), ParseError>(ParseError::ExpectedPathSep)
            &&& sep && kind_at(toks@, pos + 4) == Kind::End ==> r == Err::<
                (Tree, usize),
                ParseError,
            >(ParseError::EndExpectedIdent)
            &&& sep && kind_at(toks@, pos + 4) == Kind::Crate && pos + 4 < toks.len() ==> r
                == Err::<(Tree, usize), ParseError>(ParseError::ReservedCrate)
        },
    decreases toks.len() - pos, 1int,
{
    let mut kids = begin(toks, pos);
    let mut cur = pos;
    if peek(toks, cur) == Kind::Dollar && peek2(toks, cur) == Kind::Crate {
        cur = expect(toks, Ghost(pos), &mut kids, cur, Kind::Dollar)?;
        cur = expect(toks, Ghost(pos), &mut kids, cur, Kind::Crate)?;
        if !(peek(toks, cur) == Kind::Colon && peek2(toks, cur) == Kind::Colon) {
            return Err(ParseError::ExpectedPathSep);
        }
        cur = expect(toks, Ghost(pos), &mut kids, cur, Kind::Colon)?;
        cur = expect(toks, Ghost(pos), &mut kids, cur, Kind::Colon)?;
    }
    let ghost base = kids@.len() as int;
    let sub = parse_segment(toks, cur)?;
    cur = attach(toks, Ghost(pos), &mut kids, cur, sub);
    while peek(toks, cur) == Kind::Colon && peek2(toks, cur) == Kind::Colon
        invariant
            covers(toks@, pos as int, kids@, cur as int),
            pos < cur,
            chain(kids@, base),
            path_end(toks@, pos as int) == chain_rest(toks@, cur as int),
            base == 0 || base == 4,
            base == 4 ==> tok(kids@[0], Kind::Dollar) && tok(kids@[1], Kind::Crate) && tok(
                kids@[2],
                Kind::Colon,
            ) && tok(kids@[3], Kind::Colon),
            base == 0 ==> !tok(kids@[0], Kind::Dollar),
            lone_name(toks@, pos as int) ==> cur == pos + 1,
            base == 0 ==> is_name(kind_at(toks@, pos as int)),
            base == 4 ==> kind_at(toks@, pos as int) == Kind::Dollar,
            base == 4 ==> kind_at(toks@, pos + 2) == Kind::Colon && kind_at(toks@, pos + 3)
                == Kind::Colon && is_name(kind_at(toks@, pos + 4)),
        decreases toks.len() - cur,
    {
        cur = expect(toks, Ghost(pos), &mut kids, cur, Kind::Colon)?;
        cur = expect(toks, Ghost(pos), &mut kids, cur, Kind::Colon)?;
        let sub = parse_segment(toks, cur)?;
        cur = attach(toks, Ghost(pos), &mut kids, cur, sub);
    }
    Ok((Tree::Branch(NodeKind::Path, kids), cur))
}

/// A plain path, or a qualified path `<Type as Trait>::segment`, whose base
/// type may itself be a qualified path.
#[verifier::rlimit(50)]
pub fn parse_type_path(toks: &Vec<Token>, pos: usize) -> (r: Result<(Tree, usize), ParseError>)
    requires
        pos <= toks.len(),
    ensures
        sentence(toks@, pos as int, r),
        ending(r) == type_path_end(toks@, pos as int),
        r matches Ok((t, _)) ==> (t matches Tree::Branch(k, _) && k == (if kind_at(
            toks@,
            pos as int,
        ) == Kind::Lt {
            NodeKind::QualifiedPath
        } else {
            NodeKind::Path
        })),
        lone_name(toks@, pos as int) ==> took_one(pos as int, r),
        refuses_crate(toks@, pos as int, r),
    decreases toks.len() - pos, 2int,
{
    if peek(toks, pos) != Kind::Lt {
        return parse_path(toks, pos);
    }
    let mut kids = begin(toks, pos);
    let mut cur = pos;
    cur = expect(toks, Ghost(pos), &mut kids, cur, Kind::Lt)?;
    let sub = parse_type(toks, cur)?;
    cur = attach(toks, Ghost(pos), &mut kids, cur, sub);
    if peek(toks, cur) == Kind::As {
        cur = expect(toks, Ghost(pos), &mut kids, cur, Kind::As)?;
        let sub = parse_path(toks, cur)?;
        cur = attach(toks, Ghost(pos), &mut kids, cur, sub);
    }
    cur = expect(toks, Ghost(pos), &mut kids, cur, Kind::Gt)?;
    let ghost base = kids@.len() as int;
    while peek(toks, cur) == Kind::Colon && peek2(toks, cur) == Kind::Colon
        invariant
            covers(toks@, pos as int, kids@, cur as int),
            pos < cur,
            tail(kids@, base),
            type_path_end(toks@, pos as int) == chain_rest(toks@, cur as int),
            kind_at(toks@, pos as int) == Kind::Lt,
            base == 3 || base == 5,
            tok(kids@[0], Kind::Lt),
            is_type(kids@[1]),
            base == 3 ==> tok(kids@[2], Kind::Gt),
            base == 5 ==> tok(kids@[2], Kind::As) && node(kids@[3], NodeKind::Path) && tok(
                kids@[4],
                Kind::Gt,
            ),
        decreases toks.len() - cur,
    {
        cur = expect(toks, Ghost(pos), &mut kids, cur, Kind::Colon)?;
        cur = expect(toks, Ghost(pos), &mut kids, cur, Kind::Colon)?;
        let sub = parse_segment(toks, cur)?;
        cur = attach(toks, Ghost(pos), &mut kids, cur, sub);
    }
    Ok((Tree::Branch(NodeKind::QualifiedPath, kids), cur))
}

/// A type: a raw pointer, a reference, a slice or an array, a metavariable
/// `$T`, or a path with its generic arguments.
#[verifier::rlimit(50)]
pub fn parse_type(toks: &Vec<Token>, pos: usize) -> (r: Result<(Tree, usize), ParseError>)
    requires
        pos <= toks.len(),
    ensures
        sentence(toks@, pos as int, r),
        ending(r) == type_end(toks@, pos as int),
        r matches Ok((t, _)) ==> is_type(t),
        lone_name(toks@, pos as int) ==> took_one(pos as int, r),
        refuses_crate(toks@, pos as int, r),
    decreases toks.len() - pos, 3int,
{
    let k = peek(toks, pos);
    let mut kids = begin(toks, pos);
    let mut cur = pos;
    if k == Kind::Star {
        cur = expect(toks, Ghost(pos), &mut kids, cur, Kind::Star)?;
        if peek(toks, cur) == Kind::Mut {
            cur = expect(toks, Ghost(pos), &mut kids, cur, Kind::Mut)?;
        } else {
            cur = expect(toks, Ghost(pos), &mut kids, cur, Kind::Const)?;
        }
        let sub = parse_type(toks, cur)?;
        cur = attach(toks, Ghost(pos), &mut kids, cur, sub);
        Ok((Tree::Branch(NodeKind::RawPointer, kids), cur))
    } else if k == Kind::Amp {
        cur = expect(toks, Ghost(pos), &mut kids, cur, Kind::Amp)?;
        if peek(toks, cur) == Kind::Mut {
            cur = expect(toks, Ghost(pos), &mut kids, cur, Kind::Mut)?;
        }
        let sub = parse_type(toks, cur)?;
        cur = attach(toks, Ghost(pos), &mut kids, cur, sub);
        Ok((Tree::Branch(NodeKind::Reference, kids), cur))
    } else if k == Kind::LBracket {
        cur = expect(toks, Ghost(pos), &mut kids, cur, Kind::LBracket)?;
        let sub = parse_type(toks, cur)?;
        cur = attach(toks, Ghost(pos), &mut kids, cur, sub);
        if peek(toks, cur) == Kind::Semi {
            cur = expect(toks, Ghost(pos), &mut kids, cur, Kind::Semi)?;
            cur = expect(toks, Ghost(pos), &mut kids, cur, Kind::Literal)?;
            cur = expect(toks, Ghost(pos), &mut kids, cur, Kind::RBracket)?;
            Ok((Tree::Branch(NodeKind::Array, kids), cur))
        } else {
            cur = expect(toks, Ghost(pos), &mut kids, cur, Kind::RBracket)?;
            Ok((Tree::Branch(NodeKind::Slice, kids), cur))
        }
    } else if k == Kind::Dollar && names(peek2(toks, pos)) {
        cur = expect(toks, Ghost(pos), &mut kids, cur, Kind::Dollar)?;
        cur = expect_name(toks, Ghost(pos), &mut kids, cur)?;
        Ok((Tree::Branch(NodeKind::MetaVar, kids), cur))
    } else {
        parse_type_path(toks, pos)
    }
}

} // verus!
