use vstd::prelude::*;
use crate::error::ParseError;
use crate::token::{mark_kind, word_kind, Kind, Token};

verus! {

#[verifier::external_type_specification]
#[verifier::external_body]
pub struct ExTokenStream(proc_macro2::TokenStream);

#[verifier::external_type_specification]
#[verifier::external_body]
pub struct ExTokenTree(proc_macro2::TokenTree);

#[verifier::external_type_specification]
#[verifier::external_body]
pub struct ExGroup(proc_macro2::Group);

#[verifier::external_type_specification]
#[verifier::external_body]
pub struct ExSynError(syn::Error);

/// One item of a token stream, with its text taken out.
pub enum RawItem {
    Word(String),
    Mark(String),
    Number(String),
    Nest(proc_macro2::Group),
}

/// The delimiters that a group can have.
#[derive(Clone, Copy, Debug, PartialEq, Eq, Structural)]
pub enum Delim {
    Paren,
    Bracket,
    Brace,
    Invisible,
}

/// What one item of a token stream holds, as plain values: the text of a
/// word, of a punctuation character or of a literal, or the delimiter of a
/// group and the items between its delimiters.
pub enum Shape {
    Word(Seq<char>),
    Mark(Seq<char>),
    Number(Seq<char>),
    Nest(Delim, Seq<Shape>),
}

/// What `syn::parse_str` makes of a source text: the items of the token
/// stream, or `None` where the lexer refuses the text.
pub uninterp spec fn lexed(src: Seq<char>) -> Option<Seq<Shape>>;

/// The items that a token stream holds, in order.
pub uninterp spec fn stream_shapes(stream: proc_macro2::TokenStream) -> Seq<Shape>;

/// What a token tree holds.
pub uninterp spec fn tree_shape(tree: proc_macro2::TokenTree) -> Shape;

/// The delimiter of a group.
pub uninterp spec fn group_delim(group: proc_macro2::Group) -> Delim;

/// The items between the delimiters of a group, in order.
pub uninterp spec fn group_shapes(group: proc_macro2::Group) -> Seq<Shape>;

/// Calls `syn::parse_str` for a `proc_macro2::TokenStream`, which lexes the
/// text with `TokenStream::from_str`. The claim: the stream holds what the
/// text lexes to, and an error comes exactly where the text does not lex.
#[verifier::external_body]
fn lex_source(src: &str) -> (r: Result<proc_macro2::TokenStream, syn::Error>)
    ensures
        match r {
            Ok(stream) => lexed(src@) == Some(stream_shapes(stream)),
            Err(_) => lexed(src@) is None,
        },
{
    syn::parse_str::<proc_macro2::TokenStream>(src)
}

/// Walks a `proc_macro2::TokenStream` with its `into_iter` and collects the
/// token trees. The claim: they are the items of the stream, in order.
#[verifier::external_body]
fn stream_items(stream: proc_macro2::TokenStream) -> (r: Vec<proc_macro2::TokenTree>)
    ensures
        r@.len() == stream_shapes(stream).len(),
        forall|i: int| 0 <= i < r@.len() ==> tree_shape(#[trigger] r@[i]) == stream_shapes(stream)[i],
{
    stream.into_iter().collect()
}

/// Tells the four variants of `proc_macro2::TokenTree` apart and takes the
/// text of an identifier, a punctuation character or a literal with
/// `to_string`. The claim: the tree holds that text under that variant, and
/// a group holds its delimiter and its items.
#[verifier::external_body]
fn item_of(tree: &proc_macro2::TokenTree) -> (r: RawItem)
    ensures
        match r {
            RawItem::Word(s) => tree_shape(*tree) == Shape::Word(s@),
            RawItem::Mark(s) => tree_shape(*tree) == Shape::Mark(s@),
            RawItem::Number(s) => tree_shape(*tree) == Shape::Number(s@),
            RawItem::Nest(g) => tree_shape(*tree) == Shape::Nest(group_delim(g), group_shapes(g)),
        },
{
    match tree {
        proc_macro2::TokenTree::Ident(i) => RawItem::Word(i.to_string()),
        proc_macro2::TokenTree::Punct(p) => RawItem::Mark(p.as_char().to_string()),
        proc_macro2::TokenTree::Literal(l) => RawItem::Number(l.to_string()),
        proc_macro2::TokenTree::Group(g) => RawItem::Nest(g.clone()),
    }
}

/// Calls `proc_macro2::Group::delimiter`. The claim: the result is the
/// delimiter of the group.
#[verifier::external_body]
fn group_delimiter(group: &proc_macro2::Group) -> (r: Delim)
    ensures
        r == group_delim(*group),
{
    match group.delimiter() {
        proc_macro2::Delimiter::Parenthesis => Delim::Paren,
        proc_macro2::Delimiter::Bracket => Delim::Bracket,
        proc_macro2::Delimiter::Brace => Delim::Brace,
        proc_macro2::Delimiter::None => Delim::Invisible,
    }
}

/// Calls `proc_macro2::Group::stream`. The claim: the stream holds the
/// items between the delimiters of the group.
#[verifier::external_body]
fn group_stream(group: &proc_macro2::Group) -> (r: proc_macro2::TokenStream)
    ensures
        stream_shapes(r) == group_shapes(*group),
{
    group.stream()
}

/// The kind of a token agrees with its text: it is the kind of a word or of
/// a mark with that text, or the token is a literal. Such a token never has
/// the kind `End`.
pub open spec fn classified(t: Token) -> bool {
    t.kind == word_kind(t.text@) || t.kind == mark_kind(t.text@) || t.kind == Kind::Literal
}

/// Every token of the row is classified.
pub open spec fn all_classified(s: Seq<Token>) -> bool {
    forall|i: int| 0 <= i < s.len() ==> classified(#[trigger] s[i])
}

/// The text of the delimiter that opens (`closes` false) or closes a group;
/// the invisible delimiter has none.
pub open spec fn delimiter_text(d: Delim, closes: bool) -> Seq<char> {
    match d {
        Delim::Paren => if closes {
            ")"@
        } else {
            "("@
        },
        Delim::Bracket => if closes {
            "]"@
        } else {
            "["@
        },
        Delim::Brace => if closes {
            "}"@
        } else {
            "{"@
        },
        Delim::Invisible => Seq::empty(),
    }
}

/// The token that opens (`closes` false) or closes a group.
pub fn delimiter_token(d: Delim, closes: bool) -> (r: Option<Token>)
    ensures
        r is Some <==> d != Delim::Invisible,
        r matches Some(t) ==> t.text@ == delimiter_text(d, closes) && t.kind == mark_kind(t.text@),
{
    let text = match d {
        Delim::Paren => if closes {
            ")"
        } else {
            "("
        },
        Delim::Bracket => if closes {
            "]"
        } else {
            "["
        },
        Delim::Brace => if closes {
            "}"
        } else {
            "{"
        },
        Delim::Invisible => {
            return None;
        },
    };
    Some(Token::mark(text.to_owned()))
}

/// The token of an item that is no group: a word, a mark or a literal with
/// the item's text. A group is handed back.
pub fn leaf_token(item: RawItem) -> (r: Result<Token, proc_macro2::Group>)
    ensures
        r == (match item {
            RawItem::Word(s) => Ok::<Token, proc_macro2::Group>(
                Token { kind: word_kind(s@), text: s },
            ),
            RawItem::Mark(s) => Ok(Token { kind: mark_kind(s@), text: s }),
            RawItem::Number(s) => Ok(Token { kind: Kind::Literal, text: s }),
            RawItem::Nest(g) => Err(g),
        }),
{
    match item {
        RawItem::Word(s) => Ok(Token::word(s)),
        RawItem::Mark(s) => Ok(Token::mark(s)),
        RawItem::Number(s) => Ok(Token::literal(s)),
        RawItem::Nest(g) => Err(g),
    }
}

/// What a token holds, as plain values: its kind and its text.
pub open spec fn glance(t: Token) -> (Kind, Seq<char>) {
    (t.kind, t.text@)
}

/// What the tokens of a row hold, in order.
pub open spec fn glances(s: Seq<Token>) -> Seq<(Kind, Seq<char>)> {
    s.map_values(|t: Token| glance(t))
}

/// The token of a delimiter, as plain values; nothing for the invisible one.
pub open spec fn fence(d: Delim, closes: bool) -> Seq<(Kind, Seq<char>)> {
    if d == Delim::Invisible {
        Seq::empty()
    } else {
        seq![(mark_kind(delimiter_text(d, closes)), delimiter_text(d, closes))]
    }
}

/// The tokens of a row of items, left to right.
pub open spec fn row_marks(s: Seq<Shape>) -> Seq<(Kind, Seq<char>)>
    decreases s, 0int,
{
    if s.len() == 0 {
        Seq::empty()
    } else {
        row_marks(s.drop_last()) + shape_marks(s.last())
    }
}

/// The tokens of one item: a word, a mark or a literal is one token with
/// the kind of its text; a group is its opening delimiter, the tokens of
/// its items, and its closing delimiter.
pub open spec fn shape_marks(s: Shape) -> Seq<(Kind, Seq<char>)>
    decreases s, 1int,
{
    match s {
        Shape::Word(t) => seq![(word_kind(t), t)],
        Shape::Mark(t) => seq![(mark_kind(t), t)],
        Shape::Number(t) => seq![(Kind::Literal, t)],
        Shape::Nest(d, inner) => fence(d, false) + row_marks(inner) + fence(d, true),
    }
}

/// How deep the groups of a row are nested: 0 where it holds no group.
pub open spec fn row_depth(s: Seq<Shape>) -> nat
    decreases s, 0int,
{
    if s.len() == 0 {
        0
    } else {
        let a = row_depth(s.drop_last());
        let b = shape_depth(s.last());
        if a >= b {
            a
        } else {
            b
        }
    }
}

/// How deep the groups of an item are nested, the item counted if it is one.
pub open spec fn shape_depth(s: Shape) -> nat
    decreases s, 1int,
{
    match s {
        Shape::Nest(_, inner) => 1 + row_depth(inner),
        _ => 0,
    }
}

/// No item of a row is nested deeper than the row.
pub proof fn lemma_row_depth(s: Seq<Shape>, i: int)
    requires
        0 <= i < s.len(),
    ensures
        shape_depth(s[i]) <= row_depth(s),
    decreases s.len(),
{
    if i < s.len() - 1 {
        lemma_row_depth(s.drop_last(), i);
    }
}

/// Appends the tokens of `stream` to `out`, a group as its opening
/// delimiter, its tokens and its closing delimiter. `depth` bounds the
/// nesting of groups that is followed; `false` says that it was exceeded,
/// and `out` is then left as it was.
pub fn flatten(stream: proc_macro2::TokenStream, depth: usize, out: &mut Vec<Token>) -> (ok: bool)
    requires
        all_classified(old(out)@),
    ensures
        ok == (row_depth(stream_shapes(stream)) <= depth),
        ok ==> glances(final(out)@) == glances(old(out)@) + row_marks(stream_shapes(stream)),
        !ok ==> final(out)@ == old(out)@,
        all_classified(final(out)@),
        old(out)@.len() <= final(out)@.len(),
        final(out)@.subrange(0, old(out)@.len() as int) == old(out)@,
    decreases depth,
{
    let ghost shapes = stream_shapes(stream);
    let ghost before = out@;
    let start = out.len();
    let items = stream_items(stream);
    let mut i: usize = 0;
    proof {
        assert(out@.subrange(0, before.len() as int) =~= before);
        assert(shapes.subrange(0, 0) =~= Seq::<Shape>::empty());
        assert(glances(before) + row_marks(shapes.subrange(0, 0)) =~= glances(before));
    }
    while i < items.len()
        invariant
            i <= items.len(),
            before == old(out)@,
            start == before.len(),
            all_classified(before),
            shapes == stream_shapes(stream),
            items@.len() == shapes.len(),
            forall|j: int| 0 <= j < items@.len() ==> tree_shape(#[trigger] items@[j]) == shapes[j],
            all_classified(out@),
            before.len() <= out@.len(),
            out@.subrange(0, before.len() as int) == before,
            glances(out@) == glances(before) + row_marks(shapes.subrange(0, i as int)),
            row_depth(shapes.subrange(0, i as int)) <= depth,
        decreases items.len() - i,
    {
        let ghost prev = out@;
        let ghost shape = shapes[i as int];
        proof {
            lemma_row_depth(shapes, i as int);
            assert(shapes.subrange(0, i + 1).drop_last() =~= shapes.subrange(0, i as int));
            assert(shapes.subrange(0, i + 1).last() == shape);
        }
        match leaf_token(item_of(&items[i])) {
            Ok(t) => {
                out.push(t);
                proof {
                    assert(glances(out@) =~= glances(prev) + seq![glance(t)]);
                    assert(shape_marks(shape) =~= seq![glance(t)]);
                    assert(glances(out@) == glances(prev) + shape_marks(shape));
                }
            },
            Err(g) => {
                if depth == 0 {
                    out.truncate(start);
                    return false;
                }
                let d = group_delimiter(&g);
                match delimiter_token(d, false) {
                    Some(t) => {
                        out.push(t);
                        proof {
                            assert(glances(out@) =~= glances(prev) + seq![glance(t)]);
                        }
                    },
                    None => {
                        proof {
                            assert(glances(out@) =~= glances(prev) + fence(d, false));
                        }
                    },
                }
                let ghost mid = out@;
                assert(glances(mid) == glances(prev) + fence(d, false));
                assert(mid.subrange(0, prev.len() as int) =~= prev);
                if !flatten(group_stream(&g), depth - 1, out) {
                    out.truncate(start);
                    assert(out@ =~= before);
                    return false;
                }
                let ghost inner = out@;
                assert(inner.subrange(0, prev.len() as int) =~= prev);
                match delimiter_token(d, true) {
                    Some(t) => {
                        out.push(t);
                        proof {
                            assert(glances(out@) =~= glances(inner) + seq![glance(t)]);
                        }
                    },
                    None => {
                        proof {
                            assert(glances(out@) =~= glances(inner) + fence(d, true));
                        }
                    },
                }
                proof {
                    assert(glances(out@) == glances(inner) + fence(d, true));
                    assert(glances(out@) =~= glances(prev) + (fence(d, false) + row_marks(
                        group_shapes(g),
                    ) + fence(d, true)));
                    assert(shape == Shape::Nest(d, group_shapes(g)));
                    assert(shape_marks(shape) == fence(d, false) + row_marks(group_shapes(g))
                        + fence(d, true));
                    assert(glances(out@) == glances(prev) + shape_marks(shape));
                    assert(out@.subrange(0, prev.len() as int) =~= prev);
                }
            },
        }
        proof {
            assert(out@.subrange(0, prev.len() as int) =~= prev);
            assert(out@.subrange(0, before.len() as int) =~= prev.subrange(
                0,
                before.len() as int,
            ));
            assert(row_marks(shapes.subrange(0, i + 1)) == row_marks(shapes.subrange(0, i as int))
                + shape_marks(shape));
            assert(glances(out@) =~= glances(before) + row_marks(shapes.subrange(0, i + 1)));
        }
        i = i + 1;
    }
    proof {
        assert(shapes.subrange(0, shapes.len() as int) =~= shapes);
    }
    true
}

/// Cuts source text into tokens: the tokens of the items that the text
/// lexes to, groups flattened. `Lex` comes where the lexer refuses the
/// text, or where groups are nested deeper than a `usize` counts.
pub fn tokenize(src: &str) -> (r: Result<Vec<Token>, ParseError>)
    ensures
        match lexed(src@) {
            Some(items) if row_depth(items) <= usize::MAX => r matches Ok(v) && glances(v@)
                == row_marks(items),
            _ => r == Err::<Vec<Token>, ParseError>(ParseError::Lex),
        },
        r matches Ok(v) ==> all_classified(v@),
        r matches Err(e) ==> e == ParseError::Lex,
{
    match lex_source(src) {
        Ok(stream) => {
            let mut out: Vec<Token> = Vec::new();
            let ghost items = stream_shapes(stream);
            if flatten(stream, usize::MAX, &mut out) {
                proof {
                    assert(glances(Seq::<Token>::empty()) + row_marks(items) =~= row_marks(items));
                }
                Ok(out)
            } else {
                Err(ParseError::Lex)
            }
        },
        Err(_) => Err(ParseError::Lex),
    }
}

} // verus!
