use vstd::prelude::*;
use crate::token::Token;

verus! {

/// What a branch of the syntax tree stands for.
#[derive(Clone, Copy, Debug, PartialEq, Eq, Structural)]
pub enum NodeKind {
    Path,
    Segment,
    QualifiedPath,
    RawPointer,
    Reference,
    Slice,
    Array,
    MetaVar,
    Place,
    Deref,
    Paren,
    Downcast,
    Field,
    Index,
    OffsetIndex,
    Subslice,
    Copy,
    Move,
    Constant,
    Cast,
    Ref,
    RawRef,
    ArrayRepeat,
    ArrayList,
    Tuple,
    Aggregate,
    FieldInit,
    RawSliceFrom,
    Any,
    Call,
    Assign,
    CallStmt,
    Drop,
    Discard,
    Block,
    SwitchInt,
    Arm,
    Loop,
    MetaDecl,
    MetaItem,
    UseImport,
    TypeDecl,
    LetDecl,
    Statement,
    Mir,
}

/// A lossless syntax tree: every token that a production consumed is a leaf,
/// in source order.
#[derive(Debug)]
pub enum Tree {
    Leaf(Token),
    Branch(NodeKind, Vec<Tree>),
}

/// The tokens of a row of trees, left to right.
pub open spec fn flat(s: Seq<Tree>) -> Seq<Token>
    decreases s, 0int,
{
    if s.len() == 0 {
        Seq::empty()
    } else {
        flat(s.drop_last()) + printed(s.last())
    }
}

/// The tokens that a tree prints as.
pub open spec fn printed(t: Tree) -> Seq<Token>
    decreases t, 1int,
{
    match t {
        Tree::Leaf(x) => seq![x],
        Tree::Branch(_, c) => flat(c@),
    }
}

/// Adding a tree to a row adds its tokens at the end.
pub proof fn lemma_flat_push(s: Seq<Tree>, t: Tree)
    ensures
        flat(s.push(t)) == flat(s) + printed(t),
{
    assert(s.push(t).drop_last() =~= s);
}

impl Tree {
    /// The kind of a branch; `None` for a leaf.
    pub fn kind(&self) -> (r: Option<NodeKind>)
        ensures
            r == (match *self {
                Tree::Leaf(_) => None,
                Tree::Branch(k, _) => Some(k),
            }),
    {
        match self {
            Tree::Leaf(_) => None,
            Tree::Branch(k, _) => Some(*k),
        }
    }

    /// Appends the tokens of this tree to `out`.
    pub fn print_into(&self, out: &mut Vec<Token>)
        ensures
            final(out)@ == old(out)@ + printed(*self),
        decreases self,
    {
        match self {
            Tree::Leaf(x) => {
                out.push(x.dup());
            },
            Tree::Branch(_, c) => {
                let mut i: usize = 0;
                assert(flat(c@.subrange(0, 0)) =~= Seq::<Token>::empty());
                while i < c.len()
                    invariant
                        i <= c.len(),
                        *self matches Tree::Branch(_, cc) && cc == *c,
                        out@ == old(out)@ + flat(c@.subrange(0, i as int)),
                    decreases c.len() - i,
                {
                    c[i].print_into(out);
                    proof {
                        assert(c@.subrange(0, i + 1).drop_last() =~= c@.subrange(0, i as int));
                    }
                    i = i + 1;
                }
                assert(c@.subrange(0, c.len() as int) =~= c@);
            },
        }
    }

    /// The tokens of this tree, in order.
    pub fn tokens(&self) -> (r: Vec<Token>)
        ensures
            r@ == printed(*self),
    {
        let mut out: Vec<Token> = Vec::new();
        self.print_into(&mut out);
        assert(Seq::<Token>::empty() + printed(*self) =~= printed(*self));
        out
    }
}

} // verus!
