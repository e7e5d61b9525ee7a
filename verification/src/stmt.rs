use vstd::prelude::*;
use crate::accept::{
    action_end, arm_body_end, arm_end, arm_key_end, arms_rest, assign_end, block_end, ending, ending_at, kind_at, loop_end,
    statement_end, statements_rest, step, switch_end,
};
use crate::error::ParseError;
use crate::grammar::{is_action, is_statement, node, tok};
use crate::expr::{
    parse_call, parse_operand, parse_place, parse_rvalue_or_call, signed_literal,
};
use crate::parse::{attach, begin, covers, expect, peek, sentence, yields};
use crate::token::{Kind, Token};
use crate::tree::{NodeKind, Tree};

verus! {

/// An assignment without its semicolon: `place = rvalue-or-call`.
pub fn parse_assign(toks: &Vec<Token>, pos: usize) -> (r: Result<(Tree, usize), ParseError>)
    requires
        pos <= toks.len(),
    ensures
        sentence(toks@, pos as int, r),
        ending(r) == assign_end(toks@, pos as int),
        yields(r, NodeKind::Assign),
    decreases toks.len() - pos, 15int,
{
    let mut kids = begin(toks, pos);
    let mut cur = pos;
    let sub = parse_place(toks, cur)?;
    cur = attach(toks, Ghost(pos), &mut kids, cur, sub);
    cur = expect(toks, Ghost(pos), &mut kids, cur, Kind::Eq)?;
    let sub = parse_rvalue_or_call(toks, cur)?;
    cur = attach(toks, Ghost(pos), &mut kids, cur, sub);
    Ok((Tree::Branch(NodeKind::Assign, kids), cur))
}

/// The kind of action that the first token of a statement selects, where it
/// selects one.
pub open spec fn action_form(first: Kind, k: NodeKind) -> bool {
    if first == Kind::Drop {
        k == NodeKind::Drop
    } else if first == Kind::Underscore {
        k == NodeKind::Discard
    } else {
        k == NodeKind::Assign || k == NodeKind::CallStmt
    }
}

/// One action without its semicolon: `drop(place)`, `_ = call(..)`, an
/// assignment, or a call. A place followed by `=` commits to an assignment;
/// anything else at that point is read as a call.
#[verifier::rlimit(50)]
pub fn parse_action(toks: &Vec<Token>, pos: usize) -> (r: Result<(Tree, usize), ParseError>)
    requires
        pos <= toks.len(),
    ensures
        sentence(toks@, pos as int, r),
        ending(r) == action_end(toks@, pos as int),
        r matches Ok((t, _)) ==> (t matches Tree::Branch(k, _) && action_form(
            kind_at(toks@, pos as int),
            k,
        )),
    decreases toks.len() - pos, 16int,
{
    let k = peek(toks, pos);
    let mut kids = begin(toks, pos);
    let mut cur = pos;
    if k == Kind::Drop {
        cur = expect(toks, Ghost(pos), &mut kids, cur, Kind::Drop)?;
        cur = expect(toks, Ghost(pos), &mut kids, cur, Kind::LParen)?;
        let sub = parse_place(toks, cur)?;
        cur = attach(toks, Ghost(pos), &mut kids, cur, sub);
        cur = expect(toks, Ghost(pos), &mut kids, cur, Kind::RParen)?;
        Ok((Tree::Branch(NodeKind::Drop, kids), cur))
    } else if k == Kind::Underscore {
        cur = expect(toks, Ghost(pos), &mut kids, cur, Kind::Underscore)?;
        cur = expect(toks, Ghost(pos), &mut kids, cur, Kind::Eq)?;
        let sub = parse_call(toks, cur)?;
        cur = attach(toks, Ghost(pos), &mut kids, cur, sub);
        Ok((Tree::Branch(NodeKind::Discard, kids), cur))
    } else {
        let assigns = match parse_place(toks, pos) {
            Ok((_, n)) => peek(toks, n) == Kind::Eq,
            Err(_) => false,
        };
        if assigns {
            parse_assign(toks, pos)
        } else {
            let sub = parse_call(toks, cur)?;
            cur = attach(toks, Ghost(pos), &mut kids, cur, sub);
            Ok((Tree::Branch(NodeKind::CallStmt, kids), cur))
        }
    }
}

/// The kind of statement that the first token selects.
pub open spec fn statement_kind(first: Kind) -> NodeKind {
    if first == Kind::Loop {
        NodeKind::Loop
    } else if first == Kind::SwitchInt {
        NodeKind::SwitchInt
    } else {
        NodeKind::Statement
    }
}

/// A statement: a loop, a `switchInt`, or an action followed by `;`.
pub fn parse_statement(toks: &Vec<Token>, pos: usize) -> (r: Result<(Tree, usize), ParseError>)
    requires
        pos <= toks.len(),
    ensures
        sentence(toks@, pos as int, r),
        ending(r) == statement_end(toks@, pos as int),
        yields(r, statement_kind(kind_at(toks@, pos as int))),
    decreases toks.len() - pos, 19int,
{
    let k = peek(toks, pos);
    if k == Kind::Loop {
        parse_loop(toks, pos)
    } else if k == Kind::SwitchInt {
        parse_switch_int(toks, pos)
    } else {
        let mut kids = begin(toks, pos);
        let mut cur = pos;
        let sub = parse_action(toks, cur)?;
        cur = attach(toks, Ghost(pos), &mut kids, cur, sub);
        cur = expect(toks, Ghost(pos), &mut kids, cur, Kind::Semi)?;
        Ok((Tree::Branch(NodeKind::Statement, kids), cur))
    }
}

/// A block: any number of statements in braces.
#[verifier::rlimit(50)]
pub fn parse_block(toks: &Vec<Token>, pos: usize) -> (r: Result<(Tree, usize), ParseError>)
    requires
        pos <= toks.len(),
    ensures
        sentence(toks@, pos as int, r),
        ending(r) == block_end(toks@, pos as int),
        yields(r, NodeKind::Block),
    decreases toks.len() - pos, 17int,
{
    let mut kids = begin(toks, pos);
    let mut cur = pos;
    cur = expect(toks, Ghost(pos), &mut kids, cur, Kind::LBrace)?;
    while peek(toks, cur) != Kind::RBrace
        invariant
            covers(toks@, pos as int, kids@, cur as int),
            pos < cur,
            kids@.len() >= 1,
            tok(kids@[0], Kind::LBrace),
            forall|i: int| 1 <= i < kids@.len() ==> is_statement(#[trigger] kids@[i]),
            kind_at(toks@, pos as int) == Kind::LBrace,
            statements_rest(toks@, pos + 1) == statements_rest(toks@, cur as int),
        decreases toks.len() - cur,
    {
        let sub = parse_statement(toks, cur)?;
        cur = attach(toks, Ghost(pos), &mut kids, cur, sub);
    }
    cur = expect(toks, Ghost(pos), &mut kids, cur, Kind::RBrace)?;
    Ok((Tree::Branch(NodeKind::Block, kids), cur))
}

/// A loop: the word `loop` and its block.
pub fn parse_loop(toks: &Vec<Token>, pos: usize) -> (r: Result<(Tree, usize), ParseError>)
    requires
        pos <= toks.len(),
    ensures
        sentence(toks@, pos as int, r),
        ending(r) == loop_end(toks@, pos as int),
        yields(r, NodeKind::Loop),
    decreases toks.len() - pos, 18int,
{
    let mut kids = begin(toks, pos);
    let mut cur = pos;
    cur = expect(toks, Ghost(pos), &mut kids, cur, Kind::Loop)?;
    let sub = parse_block(toks, cur)?;
    cur = attach(toks, Ghost(pos), &mut kids, cur, sub);
    Ok((Tree::Branch(NodeKind::Loop, kids), cur))
}

/// The key of an arm: `_`, `true`, `false`, or a literal with or without a
/// minus sign.
fn arm_key(
    toks: &Vec<Token>,
    Ghost(start): Ghost<usize>,
    kids: &mut Vec<Tree>,
    cur: usize,
) -> (r: Result<usize, ParseError>)
    requires
        covers(toks@, start as int, old(kids)@, cur as int),
    ensures
        ending_at(r) == arm_key_end(toks@, cur as int),
        r matches Ok(n) ==> covers(toks@, start as int, final(kids)@, n as int) && (if kind_at(
            toks@,
            cur as int,
        ) == Kind::Minus {
            n == cur + 2 && toks[cur + 1].kind == Kind::Literal && final(kids)@ == old(
                kids,
            )@.push(Tree::Leaf(toks[cur as int])).push(Tree::Leaf(toks[cur + 1]))
        } else {
            n == cur + 1 && (toks[cur as int].kind == Kind::Literal || toks[cur as int].kind
                == Kind::Underscore || toks[cur as int].kind == Kind::Bool) && final(kids)@ == old(
                kids,
            )@.push(Tree::Leaf(toks[cur as int]))
        }),
{
    let k = peek(toks, cur);
    if k == Kind::Underscore {
        expect(toks, Ghost(start), kids, cur, Kind::Underscore)
    } else if k == Kind::Bool {
        expect(toks, Ghost(start), kids, cur, Kind::Bool)
    } else {
        signed_literal(toks, Ghost(start), kids, cur)
    }
}

/// The body of an arm: `break`, a block, or one action.
pub fn parse_arm_body(toks: &Vec<Token>, pos: usize) -> (r: Result<(Tree, usize), ParseError>)
    requires
        pos <= toks.len(),
    ensures
        sentence(toks@, pos as int, r),
        ending(r) == arm_body_end(toks@, pos as int),
        r matches Ok((t, _)) ==> tok(t, Kind::Break) || node(t, NodeKind::Block) || is_action(t),
    decreases toks.len() - pos, 18int,
{
    let b = peek(toks, pos);
    if b == Kind::Break {
        if pos < toks.len() {
            assert(seq![toks@[pos as int]] =~= toks@.subrange(pos as int, pos + 1));
            Ok((Tree::Leaf(toks[pos].dup()), pos + 1))
        } else {
            Err(ParseError::UnexpectedEnd)
        }
    } else if b == Kind::LBrace {
        parse_block(toks, pos)
    } else {
        parse_action(toks, pos)
    }
}

/// One arm of a `switchInt`: a key, `=>`, and a body; a comma may follow.
#[verifier::rlimit(50)]
pub fn parse_arm(toks: &Vec<Token>, pos: usize) -> (r: Result<(Tree, usize), ParseError>)
    requires
        pos <= toks.len(),
    ensures
        sentence(toks@, pos as int, r),
        ending(r) == arm_end(toks@, pos as int),
        yields(r, NodeKind::Arm),
    decreases toks.len() - pos, 18int,
{
    let mut kids = begin(toks, pos);
    let mut cur = pos;
    cur = arm_key(toks, Ghost(pos), &mut kids, cur)?;
    cur = expect(toks, Ghost(pos), &mut kids, cur, Kind::Eq)?;
    cur = expect(toks, Ghost(pos), &mut kids, cur, Kind::Gt)?;
    let sub = parse_arm_body(toks, cur)?;
    cur = attach(toks, Ghost(pos), &mut kids, cur, sub);
    if peek(toks, cur) == Kind::Comma {
        cur = expect(toks, Ghost(pos), &mut kids, cur, Kind::Comma)?;
    }
    Ok((Tree::Branch(NodeKind::Arm, kids), cur))
}

/// A multi-way branch: `switchInt(operand) { arm* }`, the arms in source
/// order.
#[verifier::rlimit(50)]
pub fn parse_switch_int(toks: &Vec<Token>, pos: usize) -> (r: Result<(Tree, usize), ParseError>)
    requires
        pos <= toks.len(),
    ensures
        sentence(toks@, pos as int, r),
        ending(r) == switch_end(toks@, pos as int),
        yields(r, NodeKind::SwitchInt),
    decreases toks.len() - pos, 18int,
{
    let mut kids = begin(toks, pos);
    let mut cur = pos;
    cur = expect(toks, Ghost(pos), &mut kids, cur, Kind::SwitchInt)?;
    cur = expect(toks, Ghost(pos), &mut kids, cur, Kind::LParen)?;
    let sub = parse_operand(toks, cur)?;
    cur = attach(toks, Ghost(pos), &mut kids, cur, sub);
    cur = expect(toks, Ghost(pos), &mut kids, cur, Kind::RParen)?;
    cur = expect(toks, Ghost(pos), &mut kids, cur, Kind::LBrace)?;
    let ghost first = cur;
    while peek(toks, cur) != Kind::RBrace
        invariant
            covers(toks@, pos as int, kids@, cur as int),
            pos < cur,
            kids@.len() >= 5,
            tok(kids@[0], Kind::SwitchInt),
            tok(kids@[1], Kind::LParen),
            crate::grammar::is_operand(kids@[2]),
            tok(kids@[3], Kind::RParen),
            tok(kids@[4], Kind::LBrace),
            forall|i: int| 5 <= i < kids@.len() ==> node(#[trigger] kids@[i], NodeKind::Arm),
            pos < first <= cur,
            arms_rest(toks@, first as int) == arms_rest(toks@, cur as int),
            switch_end(toks@, pos as int) == (match arms_rest(toks@, first as int) {
                Ok(g) => step(toks@, g, Kind::RBrace),
                Err(e) => Err(e),
            }),
        decreases toks.len() - cur,
    {
        let sub = parse_arm(toks, cur)?;
        cur = attach(toks, Ghost(pos), &mut kids, cur, sub);
    }
    cur = expect(toks, Ghost(pos), &mut kids, cur, Kind::RBrace)?;
    Ok((Tree::Branch(NodeKind::SwitchInt, kids), cur))
}

} // verus!
