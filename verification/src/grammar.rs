use vstd::prelude::*;
use crate::token::Kind;
use crate::tree::{NodeKind, Tree};

verus! {

/// Whether a token of this kind can serve as a name: a plain identifier,
/// or one of the words that the grammar gives a meaning only at certain
/// places (`meta`, `from`, `of`, `raw`, `drop`, `switchInt`).
pub open spec fn is_name(k: Kind) -> bool {
    k == Kind::Ident || k == Kind::Meta || k == Kind::From || k == Kind::Of || k == Kind::Raw || k
        == Kind::Drop || k == Kind::SwitchInt
}

/// The tree is a single token of kind `k`.
pub open spec fn tok(t: Tree, k: Kind) -> bool {
    t matches Tree::Leaf(x) && x.kind == k
}

/// The tree is a single token that serves as a name.
pub open spec fn name(t: Tree) -> bool {
    t matches Tree::Leaf(x) && is_name(x.kind)
}

/// The tree is a branch of kind `k`.
pub open spec fn node(t: Tree, k: NodeKind) -> bool {
    t matches Tree::Branch(kk, _) && kk == k
}

/// A plain or a qualified path.
pub open spec fn is_path(t: Tree) -> bool {
    node(t, NodeKind::Path) || node(t, NodeKind::QualifiedPath)
}

/// Any form of type.
pub open spec fn is_type(t: Tree) -> bool {
    node(t, NodeKind::RawPointer) || node(t, NodeKind::Reference) || node(t, NodeKind::Slice)
        || node(t, NodeKind::Array) || node(t, NodeKind::MetaVar) || is_path(t)
}

/// A place, dereferenced or not.
pub open spec fn is_place(t: Tree) -> bool {
    node(t, NodeKind::Deref) || node(t, NodeKind::Place)
}

/// One projection of a place.
pub open spec fn is_projection(t: Tree) -> bool {
    node(t, NodeKind::Field) || node(t, NodeKind::Index) || node(t, NodeKind::OffsetIndex) || node(
        t,
        NodeKind::Subslice,
    )
}

/// Any form of operand.
pub open spec fn is_operand(t: Tree) -> bool {
    node(t, NodeKind::Copy) || node(t, NodeKind::Move) || node(t, NodeKind::Constant) || node(
        t,
        NodeKind::MetaVar,
    ) || is_path(t)
}

/// Anything that may stand on the right of an assignment: an operand, one
/// of the rvalue forms, or a call.
pub open spec fn is_rvalue(t: Tree) -> bool {
    is_operand(t) || node(t, NodeKind::Cast) || node(t, NodeKind::Ref) || node(t, NodeKind::RawRef)
        || node(t, NodeKind::ArrayRepeat) || node(t, NodeKind::ArrayList) || node(
        t,
        NodeKind::Tuple,
    ) || node(t, NodeKind::Aggregate) || node(t, NodeKind::RawSliceFrom) || node(t, NodeKind::Any)
        || node(t, NodeKind::Call)
}

/// What a statement holds before its semicolon.
pub open spec fn is_action(t: Tree) -> bool {
    node(t, NodeKind::Drop) || node(t, NodeKind::Discard) || node(t, NodeKind::Assign) || node(
        t,
        NodeKind::CallStmt,
    )
}

/// What may stand in a block.
pub open spec fn is_statement(t: Tree) -> bool {
    node(t, NodeKind::Statement) || node(t, NodeKind::Loop) || node(t, NodeKind::SwitchInt)
}

/// What the items of a comma-separated list are.
#[derive(Clone, Copy, Debug, PartialEq, Eq, Structural)]
pub enum Class {
    Type,
    Operand,
    FieldInit,
    MetaItem,
}

/// The tree is an item of the class.
pub open spec fn in_class(t: Tree, cl: Class) -> bool {
    match cl {
        Class::Type => is_type(t),
        Class::Operand => is_operand(t),
        Class::FieldInit => node(t, NodeKind::FieldInit),
        Class::MetaItem => node(t, NodeKind::MetaItem),
    }
}

/// From `from` up to `to` the row holds items and commas in turn, starting
/// with an item.
pub open spec fn separated(c: Seq<Tree>, from: int, to: int, cl: Class) -> bool {
    forall|i: int|
        from <= i < to ==> if (i - from) % 2 == 0 {
            in_class(#[trigger] c[i], cl)
        } else {
            tok(c[i], Kind::Comma)
        }
}

/// From `from` to its end the row is `segment (:: segment)*`.
pub open spec fn chain(c: Seq<Tree>, from: int) -> bool {
    &&& 0 <= from < c.len()
    &&& (c.len() - from) % 3 == 1
    &&& forall|i: int|
        from <= i < c.len() ==> if (i - from) % 3 == 0 {
            node(#[trigger] c[i], NodeKind::Segment)
        } else {
            tok(c[i], Kind::Colon)
        }
}

/// From `from` to its end the row is `(:: segment)*`.
pub open spec fn tail(c: Seq<Tree>, from: int) -> bool {
    &&& 0 <= from <= c.len()
    &&& (c.len() - from) % 3 == 0
    &&& forall|i: int|
        from <= i < c.len() ==> if (i - from) % 3 == 2 {
            node(#[trigger] c[i], NodeKind::Segment)
        } else {
            tok(c[i], Kind::Colon)
        }
}

/// At `at` the row holds a literal, with a minus sign before it or without.
/// The result is the number of tokens that this takes, 0 if it does not hold.
pub open spec fn signed(c: Seq<Tree>, at: int) -> int {
    if 0 <= at < c.len() && tok(c[at], Kind::Literal) {
        1
    } else if 0 <= at && at + 1 < c.len() && tok(c[at], Kind::Minus) && tok(c[at + 1], Kind::Literal) {
        2
    } else {
        0
    }
}

/// The kind of an opening delimiter.
pub open spec fn is_open(k: Kind) -> bool {
    k == Kind::LParen || k == Kind::LBracket || k == Kind::LBrace
}

/// The closing delimiter that matches an opening one.
pub open spec fn closing(open: Kind) -> Kind {
    if open == Kind::LParen {
        Kind::RParen
    } else if open == Kind::LBracket {
        Kind::RBracket
    } else {
        Kind::RBrace
    }
}

/// The place of a branch in the fixed order of a pattern unit.
pub open spec fn section(t: Tree) -> int {
    if node(t, NodeKind::MetaDecl) {
        0
    } else if node(t, NodeKind::UseImport) {
        1
    } else if node(t, NodeKind::TypeDecl) {
        2
    } else if node(t, NodeKind::LetDecl) {
        3
    } else if is_statement(t) {
        4
    } else {
        5
    }
}

/// The parts of a pattern unit, each in its section, the sections in order.
pub open spec fn ordered(c: Seq<Tree>) -> bool {
    &&& forall|i: int| 0 <= i < c.len() ==> section(#[trigger] c[i]) <= 4
    &&& forall|i: int, j: int|
        0 <= i < j < c.len() ==> section(#[trigger] c[i]) <= section(#[trigger] c[j])
}

/// The grammar, as a rule for each kind of branch: which rows of children
/// a branch of that kind may have.
pub open spec fn shape(k: NodeKind, c: Seq<Tree>) -> bool {
    let n = c.len() as int;
    match k {
        NodeKind::Segment => n >= 1 && name(c[0]) && (n == 1 || (n >= 3 && tok(c[1], Kind::Lt)
            && tok(c[n - 1], Kind::Gt) && separated(c, 2, n - 1, Class::Type))),
        NodeKind::Path => if n > 0 && tok(c[0], Kind::Dollar) {
            n >= 5 && tok(c[1], Kind::Crate) && tok(c[2], Kind::Colon) && tok(c[3], Kind::Colon)
                && chain(c, 4)
        } else {
            chain(c, 0)
        },
        NodeKind::QualifiedPath => n >= 3 && tok(c[0], Kind::Lt) && is_type(c[1]) && (if tok(
            c[2],
            Kind::As,
        ) {
            n >= 5 && node(c[3], NodeKind::Path) && tok(c[4], Kind::Gt) && tail(c, 5)
        } else {
            tok(c[2], Kind::Gt) && tail(c, 3)
        }),
        NodeKind::RawPointer => n == 3 && tok(c[0], Kind::Star) && (tok(c[1], Kind::Const) || tok(
            c[1],
            Kind::Mut,
        )) && is_type(c[2]),
        NodeKind::Reference => (n == 2 && tok(c[0], Kind::Amp) && is_type(c[1])) || (n == 3 && tok(
            c[0],
            Kind::Amp,
        ) && tok(c[1], Kind::Mut) && is_type(c[2])),
        NodeKind::Slice => n == 3 && tok(c[0], Kind::LBracket) && is_type(c[1]) && tok(
            c[2],
            Kind::RBracket,
        ),
        NodeKind::Array => n == 5 && tok(c[0], Kind::LBracket) && is_type(c[1]) && tok(
            c[2],
            Kind::Semi,
        ) && tok(c[3], Kind::Literal) && tok(c[4], Kind::RBracket),
        NodeKind::MetaVar => n == 2 && tok(c[0], Kind::Dollar) && name(c[1]),
        NodeKind::Place => n >= 1 && (name(c[0]) || node(c[0], NodeKind::Paren) || node(
            c[0],
            NodeKind::Downcast,
        )) && forall|i: int| 1 <= i < n ==> is_projection(#[trigger] c[i]),
        NodeKind::Deref => n == 2 && tok(c[0], Kind::Star) && is_place(c[1]),
        NodeKind::Paren => n == 3 && tok(c[0], Kind::LParen) && is_place(c[1]) && tok(
            c[2],
            Kind::RParen,
        ),
        NodeKind::Downcast => n == 5 && tok(c[0], Kind::LParen) && is_place(c[1]) && tok(
            c[2],
            Kind::As,
        ) && name(c[3]) && tok(c[4], Kind::RParen),
        NodeKind::Field => n == 2 && tok(c[0], Kind::Dot) && (tok(c[1], Kind::Literal) || name(
            c[1],
        )),
        NodeKind::Index => n == 3 && tok(c[0], Kind::LBracket) && is_place(c[1]) && tok(
            c[2],
            Kind::RBracket,
        ),
        NodeKind::OffsetIndex => {
            let m = signed(c, 1);
            m > 0 && n == m + 4 && tok(c[0], Kind::LBracket) && tok(c[m + 1], Kind::Of) && tok(
                c[m + 2],
                Kind::Literal,
            ) && tok(c[m + 3], Kind::RBracket)
        },
        NodeKind::Subslice => {
            let m = signed(c, 1);
            let p = signed(c, m + 2);
            m > 0 && p > 0 && n == m + p + 3 && tok(c[0], Kind::LBracket) && tok(
                c[m + 1],
                Kind::Colon,
            ) && tok(c[m + p + 2], Kind::RBracket)
        },
        NodeKind::Copy => n == 2 && tok(c[0], Kind::Copy) && is_place(c[1]),
        NodeKind::Move => n == 2 && tok(c[0], Kind::Move) && is_place(c[1]),
        NodeKind::Constant => n >= 2 && tok(c[0], Kind::Const) && ((n == 2 && tok(
            c[1],
            Kind::Bool,
        )) || (signed(c, 1) > 0 && n == 1 + signed(c, 1))),
        NodeKind::Cast => n == 6 && is_operand(c[0]) && tok(c[1], Kind::As) && is_type(c[2])
            && tok(c[3], Kind::LParen) && name(c[4]) && tok(c[5], Kind::RParen),
        NodeKind::Ref => (n == 2 && tok(c[0], Kind::Amp) && is_place(c[1])) || (n == 3 && tok(
            c[0],
            Kind::Amp,
        ) && tok(c[1], Kind::Mut) && is_place(c[2])),
        NodeKind::RawRef => n == 4 && tok(c[0], Kind::Amp) && tok(c[1], Kind::Raw) && (tok(
            c[2],
            Kind::Const,
        ) || tok(c[2], Kind::Mut)) && is_place(c[3]),
        NodeKind::ArrayRepeat => n == 5 && tok(c[0], Kind::LBracket) && is_operand(c[1]) && tok(
            c[2],
            Kind::Semi,
        ) && tok(c[3], Kind::Literal) && tok(c[4], Kind::RBracket),
        NodeKind::ArrayList => n >= 2 && tok(c[0], Kind::LBracket) && tok(c[n - 1], Kind::RBracket)
            && separated(c, 1, n - 1, Class::Operand),
        NodeKind::Tuple => n >= 2 && tok(c[0], Kind::LParen) && tok(c[n - 1], Kind::RParen)
            && separated(c, 1, n - 1, Class::Operand),
        NodeKind::Aggregate => n >= 3 && is_path(c[0]) && tok(c[1], Kind::LBrace) && tok(
            c[n - 1],
            Kind::RBrace,
        ) && separated(c, 2, n - 1, Class::FieldInit),
        NodeKind::FieldInit => n == 3 && name(c[0]) && tok(c[1], Kind::Colon) && is_operand(c[2]),
        NodeKind::RawSliceFrom => n == 9 && tok(c[0], Kind::Star) && (tok(c[1], Kind::Const) || tok(
            c[1],
            Kind::Mut,
        )) && is_type(c[2]) && tok(c[3], Kind::From) && tok(c[4], Kind::LParen) && is_operand(c[5])
            && tok(c[6], Kind::Comma) && is_operand(c[7]) && tok(c[8], Kind::RParen),
        NodeKind::Any => n == 1 && tok(c[0], Kind::Underscore),
        NodeKind::Call => n >= 3 && is_path(c[0]) && tok(c[1], Kind::LParen) && tok(
            c[n - 1],
            Kind::RParen,
        ) && separated(c, 2, n - 1, Class::Operand),
        NodeKind::Assign => n == 3 && is_place(c[0]) && tok(c[1], Kind::Eq) && is_rvalue(c[2]),
        NodeKind::CallStmt => n == 1 && node(c[0], NodeKind::Call),
        NodeKind::Drop => n == 4 && tok(c[0], Kind::Drop) && tok(c[1], Kind::LParen) && is_place(
            c[2],
        ) && tok(c[3], Kind::RParen),
        NodeKind::Discard => n == 3 && tok(c[0], Kind::Underscore) && tok(c[1], Kind::Eq) && node(
            c[2],
            NodeKind::Call,
        ),
        NodeKind::Statement => n == 2 && is_action(c[0]) && tok(c[1], Kind::Semi),
        NodeKind::Block => n >= 2 && tok(c[0], Kind::LBrace) && tok(c[n - 1], Kind::RBrace)
            && forall|i: int| 1 <= i < n - 1 ==> is_statement(#[trigger] c[i]),
        NodeKind::Loop => n == 2 && tok(c[0], Kind::Loop) && node(c[1], NodeKind::Block),
        NodeKind::SwitchInt => n >= 6 && tok(c[0], Kind::SwitchInt) && tok(c[1], Kind::LParen)
            && is_operand(c[2]) && tok(c[3], Kind::RParen) && tok(c[4], Kind::LBrace) && tok(
            c[n - 1],
            Kind::RBrace,
        ) && forall|i: int| 5 <= i < n - 1 ==> node(#[trigger] c[i], NodeKind::Arm),
        NodeKind::Arm => {
            let m = if n > 0 && (tok(c[0], Kind::Underscore) || tok(c[0], Kind::Bool)) {
                1
            } else {
                signed(c, 0)
            };
            m > 0 && n >= m + 3 && tok(c[m], Kind::Eq) && tok(c[m + 1], Kind::Gt) && (tok(
                c[m + 2],
                Kind::Break,
            ) || node(c[m + 2], NodeKind::Block) || is_action(c[m + 2])) && (n == m + 3 || (n == m
                + 4 && tok(c[m + 3], Kind::Comma)))
        },
        NodeKind::MetaDecl => {
            let e = if n > 0 && tok(c[n - 1], Kind::Semi) {
                n - 1
            } else {
                n
            };
            e >= 4 && tok(c[0], Kind::Meta) && tok(c[1], Kind::Bang) && (exists|open: Kind|
                is_open(open) && tok(c[2], open) && tok(c[e - 1], closing(open))) && separated(
                c,
                3,
                e - 1,
                Class::MetaItem,
            )
        },
        NodeKind::MetaItem => n == 4 && tok(c[0], Kind::Dollar) && name(c[1]) && tok(
            c[2],
            Kind::Colon,
        ) && name(c[3]),
        NodeKind::UseImport => n == 3 && tok(c[0], Kind::Use) && node(c[1], NodeKind::Path) && tok(
            c[2],
            Kind::Semi,
        ),
        NodeKind::TypeDecl => n == 5 && tok(c[0], Kind::Type) && name(c[1]) && tok(c[2], Kind::Eq)
            && is_type(c[3]) && tok(c[4], Kind::Semi),
        NodeKind::LetDecl => n >= 5 && tok(c[0], Kind::Let) && name(c[1]) && tok(c[2], Kind::Colon)
            && is_type(c[3]) && ((n == 5 && tok(c[4], Kind::Semi)) || (n == 7 && tok(
            c[4],
            Kind::Eq,
        ) && is_rvalue(c[5]) && tok(c[6], Kind::Semi))),
        NodeKind::Mir => ordered(c),
    }
}

/// A tree is a derivation of the grammar: every branch in it has a row of
/// children that the rule of its kind allows.
pub open spec fn well_formed(t: Tree) -> bool
    decreases t,
{
    match t {
        Tree::Leaf(_) => true,
        Tree::Branch(k, c) => shape(k, c@) && forall|i: int|
            0 <= i < c@.len() ==> well_formed(#[trigger] c@[i]),
    }
}

} // verus!
