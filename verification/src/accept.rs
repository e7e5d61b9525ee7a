use vstd::prelude::*;
use crate::error::ParseError;
use crate::grammar::{closing, is_name, is_open, Class};
use crate::token::{Kind, Token};
use crate::tree::Tree;

verus! {

/// Where a sentence ends, or why there is none.
pub type Outcome = Result<int, ParseError>;

/// The kind of the token at `i`, or `Kind::End` where there is none.
pub open spec fn kind_at(toks: Seq<Token>, i: int) -> Kind {
    if 0 <= i < toks.len() {
        toks[i].kind
    } else {
        Kind::End
    }
}

/// Where a production ended, without the tree.
pub open spec fn ending(r: Result<(Tree, usize), ParseError>) -> Outcome {
    match r {
        Ok((_, n)) => Ok(n as int),
        Err(e) => Err(e),
    }
}

/// Where a part of a production ended.
pub open spec fn ending_at(r: Result<usize, ParseError>) -> Outcome {
    match r {
        Ok(n) => Ok(n as int),
        Err(e) => Err(e),
    }
}

/// One token of kind `k` is required at `pos`.
pub open spec fn step(toks: Seq<Token>, pos: int, k: Kind) -> Outcome {
    if 0 <= pos < toks.len() && toks[pos].kind == k {
        Ok(pos + 1)
    } else if pos < toks.len() {
        Err(ParseError::UnexpectedToken)
    } else {
        Err(ParseError::UnexpectedEnd)
    }
}

/// One token that serves as a name is required at `pos`.
pub open spec fn step_name(toks: Seq<Token>, pos: int) -> Outcome {
    if 0 <= pos < toks.len() && is_name(toks[pos].kind) {
        Ok(pos + 1)
    } else if pos < toks.len() {
        Err(ParseError::UnexpectedToken)
    } else {
        Err(ParseError::UnexpectedEnd)
    }
}

/// An outcome, given that a sentence that starts at `from` ends after it
/// and within the input. Every production does; the definitions below say
/// so where they go on from the end of a part.
pub open spec fn within(a: Outcome, from: int, len: int) -> Outcome {
    match a {
        Ok(n) => if from < n <= len {
            a
        } else {
            Err(ParseError::UnexpectedToken)
        },
        Err(_) => a,
    }
}

/// A segment: a name, and generic arguments in angle brackets if `<`
/// follows. The keyword `crate` and the end of the input have errors of
/// their own.
pub open spec fn segment_end(toks: Seq<Token>, pos: int) -> Outcome
    decreases toks.len() - pos, 0int,
{
    if !(0 <= pos < toks.len()) {
        Err(ParseError::EndExpectedIdent)
    } else if toks[pos].kind == Kind::Crate {
        Err(ParseError::ReservedCrate)
    } else if toks[pos].kind == Kind::End {
        Err(ParseError::EndExpectedIdent)
    } else if !is_name(toks[pos].kind) {
        Err(ParseError::UnexpectedToken)
    } else if kind_at(toks, pos + 1) != Kind::Lt {
        Ok(pos + 1)
    } else {
        match list_end(toks, pos + 2, Kind::Gt, Class::Type) {
            Ok(n) => step(toks, n, Kind::Gt),
            Err(e) => Err(e),
        }
    }
}

/// Items separated by commas up to a token of kind `close`, which is not
/// taken; a comma may stand after the last item.
pub open spec fn list_end(toks: Seq<Token>, pos: int, close: Kind, cl: Class) -> Outcome
    decreases toks.len() - pos, 10int,
{
    if !(0 <= pos <= toks.len()) {
        Err(ParseError::UnexpectedEnd)
    } else if kind_at(toks, pos) == close {
        Ok(pos)
    } else {
        let item = match cl {
            Class::Type => type_end(toks, pos),
            Class::Operand => operand_end(toks, pos),
            Class::FieldInit => field_init_end(toks, pos),
            Class::MetaItem => meta_item_end(toks, pos),
        };
        match within(item, pos, toks.len() as int) {
            Ok(n) => if kind_at(toks, n) == Kind::Comma {
                list_end(toks, n + 1, close, cl)
            } else {
                Ok(n)
            },
            Err(e) => Err(e),
        }
    }
}

/// Any number of `:: segment` after a first segment.
pub open spec fn chain_rest(toks: Seq<Token>, pos: int) -> Outcome
    decreases toks.len() - pos, 0int,
{
    if kind_at(toks, pos) == Kind::Colon && kind_at(toks, pos + 1) == Kind::Colon {
        match within(segment_end(toks, pos + 2), pos + 2, toks.len() as int) {
            Ok(n) => chain_rest(toks, n),
            Err(e) => Err(e),
        }
    } else {
        Ok(pos)
    }
}

/// A plain path. After `$crate` the separator `::` is required, with an
/// error of its own.
pub open spec fn path_end(toks: Seq<Token>, pos: int) -> Outcome
    decreases toks.len() - pos, 1int,
{
    let marked = kind_at(toks, pos) == Kind::Dollar && kind_at(toks, pos + 1) == Kind::Crate;
    if marked && !(kind_at(toks, pos + 2) == Kind::Colon && kind_at(toks, pos + 3) == Kind::Colon) {
        Err(ParseError::ExpectedPathSep)
    } else {
        let start = if marked {
            pos + 4
        } else {
            pos
        };
        match within(segment_end(toks, start), start, toks.len() as int) {
            Ok(n) => chain_rest(toks, n),
            Err(e) => Err(e),
        }
    }
}

/// A plain path, or `<Type>` or `<Type as Path>` and any number of
/// `:: segment` after it.
pub open spec fn type_path_end(toks: Seq<Token>, pos: int) -> Outcome
    decreases toks.len() - pos, 2int,
{
    if kind_at(toks, pos) != Kind::Lt {
        path_end(toks, pos)
    } else {
        match within(type_end(toks, pos + 1), pos + 1, toks.len() as int) {
            Ok(a) => {
                let b = if kind_at(toks, a) == Kind::As {
                    within(path_end(toks, a + 1), a + 1, toks.len() as int)
                } else {
                    Ok(a)
                };
                match b {
                    Ok(c) => match step(toks, c, Kind::Gt) {
                        Ok(d) => chain_rest(toks, d),
                        Err(e) => Err(e),
                    },
                    Err(e) => Err(e),
                }
            },
            Err(e) => Err(e),
        }
    }
}

/// A type, by its first token: `*` a raw pointer, `&` a reference, `[` a
/// slice or an array, `$name` a metavariable, anything else a path.
pub open spec fn type_end(toks: Seq<Token>, pos: int) -> Outcome
    decreases toks.len() - pos, 3int,
{
    let k = kind_at(toks, pos);
    if k == Kind::Star {
        let a = if kind_at(toks, pos + 1) == Kind::Mut {
            Ok(pos + 2)
        } else {
            step(toks, pos + 1, Kind::Const)
        };
        match a {
            Ok(b) => type_end(toks, b),
            Err(e) => Err(e),
        }
    } else if k == Kind::Amp {
        if kind_at(toks, pos + 1) == Kind::Mut {
            type_end(toks, pos + 2)
        } else {
            type_end(toks, pos + 1)
        }
    } else if k == Kind::LBracket {
        match within(type_end(toks, pos + 1), pos + 1, toks.len() as int) {
            Ok(a) => if kind_at(toks, a) == Kind::Semi {
                match step(toks, a + 1, Kind::Literal) {
                    Ok(b) => step(toks, b, Kind::RBracket),
                    Err(e) => Err(e),
                }
            } else {
                step(toks, a, Kind::RBracket)
            },
            Err(e) => Err(e),
        }
    } else if k == Kind::Dollar && is_name(kind_at(toks, pos + 1)) {
        Ok(pos + 2)
    } else {
        type_path_end(toks, pos)
    }
}

/// A literal, with a minus sign before it or without.
pub open spec fn signed_end(toks: Seq<Token>, pos: int) -> Outcome {
    if kind_at(toks, pos) == Kind::Minus {
        step(toks, pos + 1, Kind::Literal)
    } else {
        step(toks, pos, Kind::Literal)
    }
}

/// One projection: `.field`, `[place]`, `[offset of length]`, `[from:to]`.
pub open spec fn projection_end(toks: Seq<Token>, pos: int) -> Outcome
    decreases toks.len() - pos, 6int,
{
    if kind_at(toks, pos) == Kind::Dot {
        if kind_at(toks, pos + 1) == Kind::Literal {
            Ok(pos + 2)
        } else {
            step_name(toks, pos + 1)
        }
    } else {
        match step(toks, pos, Kind::LBracket) {
            Ok(a) => if kind_at(toks, a) == Kind::Literal || kind_at(toks, a) == Kind::Minus {
                match signed_end(toks, a) {
                    Ok(b) => if kind_at(toks, b) == Kind::Of {
                        match step(toks, b + 1, Kind::Literal) {
                            Ok(c) => step(toks, c, Kind::RBracket),
                            Err(e) => Err(e),
                        }
                    } else {
                        match step(toks, b, Kind::Colon) {
                            Ok(c) => match signed_end(toks, c) {
                                Ok(d) => step(toks, d, Kind::RBracket),
                                Err(e) => Err(e),
                            },
                            Err(e) => Err(e),
                        }
                    },
                    Err(e) => Err(e),
                }
            } else {
                match within(place_end(toks, a), a, toks.len() as int) {
                    Ok(b) => step(toks, b, Kind::RBracket),
                    Err(e) => Err(e),
                }
            },
            Err(e) => Err(e),
        }
    }
}

/// `(place)` or `(place as Variant)`.
pub open spec fn paren_place_end(toks: Seq<Token>, pos: int) -> Outcome
    decreases toks.len() - pos, 6int,
{
    match step(toks, pos, Kind::LParen) {
        Ok(a) => match within(place_end(toks, a), a, toks.len() as int) {
            Ok(b) => if kind_at(toks, b) == Kind::As {
                match step_name(toks, b + 1) {
                    Ok(c) => step(toks, c, Kind::RParen),
                    Err(e) => Err(e),
                }
            } else {
                step(toks, b, Kind::RParen)
            },
            Err(e) => Err(e),
        },
        Err(e) => Err(e),
    }
}

/// Any number of projections: as long as `.` or `[` follows, a projection
/// is required.
pub open spec fn projections_rest(toks: Seq<Token>, pos: int) -> Outcome
    decreases toks.len() - pos, 7int,
{
    if kind_at(toks, pos) == Kind::Dot || kind_at(toks, pos) == Kind::LBracket {
        match within(projection_end(toks, pos), pos, toks.len() as int) {
            Ok(n) => projections_rest(toks, n),
            Err(e) => Err(e),
        }
    } else {
        Ok(pos)
    }
}

/// A place: `*place`, or a name or a place in parentheses and its
/// projections.
pub open spec fn place_end(toks: Seq<Token>, pos: int) -> Outcome
    decreases toks.len() - pos, 8int,
{
    if kind_at(toks, pos) == Kind::Star {
        place_end(toks, pos + 1)
    } else {
        let a = if kind_at(toks, pos) == Kind::LParen {
            within(paren_place_end(toks, pos), pos, toks.len() as int)
        } else {
            step_name(toks, pos)
        };
        match a {
            Ok(b) => projections_rest(toks, b),
            Err(e) => Err(e),
        }
    }
}

/// An operand, by its first token: `copy` or `move` and a place, `const`
/// and a literal, `$name`, anything else a path.
pub open spec fn operand_end(toks: Seq<Token>, pos: int) -> Outcome
    decreases toks.len() - pos, 9int,
{
    let k = kind_at(toks, pos);
    if k == Kind::Copy || k == Kind::Move {
        place_end(toks, pos + 1)
    } else if k == Kind::Const {
        if kind_at(toks, pos + 1) == Kind::Bool {
            Ok(pos + 2)
        } else {
            signed_end(toks, pos + 1)
        }
    } else if k == Kind::Dollar && is_name(kind_at(toks, pos + 1)) {
        Ok(pos + 2)
    } else {
        type_path_end(toks, pos)
    }
}

/// One field of an aggregate: `name: operand`.
pub open spec fn field_init_end(toks: Seq<Token>, pos: int) -> Outcome
    decreases toks.len() - pos, 9int,
{
    match step_name(toks, pos) {
        Ok(a) => match step(toks, a, Kind::Colon) {
            Ok(b) => operand_end(toks, b),
            Err(e) => Err(e),
        },
        Err(e) => Err(e),
    }
}

/// One item of a metavariable declaration: `$name:kind`.
pub open spec fn meta_item_end(toks: Seq<Token>, pos: int) -> Outcome {
    match step(toks, pos, Kind::Dollar) {
        Ok(a) => match step_name(toks, a) {
            Ok(b) => match step(toks, b, Kind::Colon) {
                Ok(c) => step_name(toks, c),
                Err(e) => Err(e),
            },
            Err(e) => Err(e),
        },
        Err(e) => Err(e),
    }
}

/// Whether the operand that starts with these two tokens is a path.
pub open spec fn path_led(first: Kind, second: Kind) -> bool {
    !(first == Kind::Copy || first == Kind::Move || first == Kind::Const || (first == Kind::Dollar
        && is_name(second)))
}

/// A call: a path and operands in parentheses.
pub open spec fn call_end(toks: Seq<Token>, pos: int) -> Outcome {
    match within(type_path_end(toks, pos), pos, toks.len() as int) {
        Ok(a) => match step(toks, a, Kind::LParen) {
            Ok(b) => match list_end(toks, b, Kind::RParen, Class::Operand) {
                Ok(c) => step(toks, c, Kind::RParen),
                Err(e) => Err(e),
            },
            Err(e) => Err(e),
        },
        Err(e) => Err(e),
    }
}

/// A cast: `operand as Type (Kind)`. Where the input ends after the type,
/// the missing parentheses have an error of their own.
pub open spec fn cast_end(toks: Seq<Token>, pos: int) -> Outcome {
    match within(operand_end(toks, pos), pos, toks.len() as int) {
        Ok(a) => match step(toks, a, Kind::As) {
            Ok(b) => match within(type_end(toks, b), b, toks.len() as int) {
                Ok(c) => if c >= toks.len() {
                    Err(ParseError::EndExpectedParens)
                } else {
                    match step(toks, c, Kind::LParen) {
                        Ok(d) => match step_name(toks, d) {
                            Ok(f) => step(toks, f, Kind::RParen),
                            Err(e) => Err(e),
                        },
                        Err(e) => Err(e),
                    }
                },
                Err(e) => Err(e),
            },
            Err(e) => Err(e),
        },
        Err(e) => Err(e),
    }
}

/// An aggregate: a path and fields in braces.
pub open spec fn aggregate_end(toks: Seq<Token>, pos: int) -> Outcome {
    match within(type_path_end(toks, pos), pos, toks.len() as int) {
        Ok(a) => match step(toks, a, Kind::LBrace) {
            Ok(b) => match list_end(toks, b, Kind::RBrace, Class::FieldInit) {
                Ok(c) => step(toks, c, Kind::RBrace),
                Err(e) => Err(e),
            },
            Err(e) => Err(e),
        },
        Err(e) => Err(e),
    }
}

/// A reference: `&place`, `&mut place`, `&raw const place`, `&raw mut place`.
pub open spec fn reference_end(toks: Seq<Token>, pos: int) -> Outcome {
    match step(toks, pos, Kind::Amp) {
        Ok(a) => if kind_at(toks, a) == Kind::Raw && (kind_at(toks, a + 1) == Kind::Const
            || kind_at(toks, a + 1) == Kind::Mut) {
            place_end(toks, a + 2)
        } else if kind_at(toks, a) == Kind::Mut {
            place_end(toks, a + 1)
        } else {
            place_end(toks, a)
        },
        Err(e) => Err(e),
    }
}

/// An array: `[operand; count]`, or operands in brackets.
pub open spec fn array_end(toks: Seq<Token>, pos: int) -> Outcome {
    match step(toks, pos, Kind::LBracket) {
        Ok(a) => if kind_at(toks, a) == Kind::RBracket {
            step(toks, a, Kind::RBracket)
        } else {
            match within(operand_end(toks, a), a, toks.len() as int) {
                Ok(b) => if kind_at(toks, b) == Kind::Semi {
                    match step(toks, b + 1, Kind::Literal) {
                        Ok(c) => step(toks, c, Kind::RBracket),
                        Err(e) => Err(e),
                    }
                } else if kind_at(toks, b) == Kind::Comma {
                    match list_end(toks, b + 1, Kind::RBracket, Class::Operand) {
                        Ok(c) => step(toks, c, Kind::RBracket),
                        Err(e) => Err(e),
                    }
                } else {
                    step(toks, b, Kind::RBracket)
                },
                Err(e) => Err(e),
            }
        },
        Err(e) => Err(e),
    }
}

/// A tuple: operands in parentheses.
pub open spec fn tuple_end(toks: Seq<Token>, pos: int) -> Outcome {
    match step(toks, pos, Kind::LParen) {
        Ok(a) => match list_end(toks, a, Kind::RParen, Class::Operand) {
            Ok(b) => step(toks, b, Kind::RParen),
            Err(e) => Err(e),
        },
        Err(e) => Err(e),
    }
}

/// A raw slice or pointer made of two parts:
/// `*const Type from (data, metadata)`.
pub open spec fn raw_slice_end(toks: Seq<Token>, pos: int) -> Outcome {
    match step(toks, pos, Kind::Star) {
        Ok(a) => match (if kind_at(toks, a) == Kind::Mut {
            Ok(a + 1)
        } else {
            step(toks, a, Kind::Const)
        }) {
            Ok(b) => match within(type_end(toks, b), b, toks.len() as int) {
                Ok(c) => match step(toks, c, Kind::From) {
                    Ok(d) => match step(toks, d, Kind::LParen) {
                        Ok(f) => match within(operand_end(toks, f), f, toks.len() as int) {
                            Ok(g) => match step(toks, g, Kind::Comma) {
                                Ok(h) => match within(operand_end(toks, h), h, toks.len() as int) {
                                    Ok(i) => step(toks, i, Kind::RParen),
                                    Err(e) => Err(e),
                                },
                                Err(e) => Err(e),
                            },
                            Err(e) => Err(e),
                        },
                        Err(e) => Err(e),
                    },
                    Err(e) => Err(e),
                },
                Err(e) => Err(e),
            },
            Err(e) => Err(e),
        },
        Err(e) => Err(e),
    }
}

/// What an operand that starts at `pos` and ends at `n` is the start of, by
/// the token at `n`: with `as` the whole is a cast; after a path, with `(`
/// it is a call and with `{` an aggregate; otherwise the operand stands for
/// itself.
pub open spec fn form_end(toks: Seq<Token>, pos: int, n: int, path: bool) -> Outcome {
    if kind_at(toks, n) == Kind::As {
        cast_end(toks, pos)
    } else if path && kind_at(toks, n) == Kind::LParen {
        call_end(toks, pos)
    } else if path && kind_at(toks, n) == Kind::LBrace {
        aggregate_end(toks, pos)
    } else {
        Ok(n)
    }
}

/// An rvalue or a call, by its first token: `&` a reference, `[` an array,
/// `(` a tuple, `*` a raw slice, `_` anything; otherwise an operand, and
/// what follows it decides.
pub open spec fn rvalue_end(toks: Seq<Token>, pos: int) -> Outcome {
    let k = kind_at(toks, pos);
    if k == Kind::Amp {
        reference_end(toks, pos)
    } else if k == Kind::LBracket {
        array_end(toks, pos)
    } else if k == Kind::LParen {
        tuple_end(toks, pos)
    } else if k == Kind::Star {
        raw_slice_end(toks, pos)
    } else if k == Kind::Underscore {
        step(toks, pos, Kind::Underscore)
    } else {
        match within(operand_end(toks, pos), pos, toks.len() as int) {
            Ok(n) => form_end(toks, pos, n, path_led(k, kind_at(toks, pos + 1))),
            Err(e) => Err(e),
        }
    }
}

/// An assignment without its semicolon: `place = rvalue-or-call`.
pub open spec fn assign_end(toks: Seq<Token>, pos: int) -> Outcome {
    match within(place_end(toks, pos), pos, toks.len() as int) {
        Ok(a) => match step(toks, a, Kind::Eq) {
            Ok(b) => rvalue_end(toks, b),
            Err(e) => Err(e),
        },
        Err(e) => Err(e),
    }
}

/// One action without its semicolon, by its first token: `drop` a drop,
/// `_` a discarded call; otherwise an assignment if a place and `=` stand
/// there, and a call if not.
pub open spec fn action_end(toks: Seq<Token>, pos: int) -> Outcome {
    let k = kind_at(toks, pos);
    if k == Kind::Drop {
        match step(toks, pos + 1, Kind::LParen) {
            Ok(a) => match within(place_end(toks, a), a, toks.len() as int) {
                Ok(b) => step(toks, b, Kind::RParen),
                Err(e) => Err(e),
            },
            Err(e) => Err(e),
        }
    } else if k == Kind::Underscore {
        match step(toks, pos + 1, Kind::Eq) {
            Ok(a) => call_end(toks, a),
            Err(e) => Err(e),
        }
    } else if place_end(toks, pos) matches Ok(n) && kind_at(toks, n) == Kind::Eq {
        assign_end(toks, pos)
    } else {
        call_end(toks, pos)
    }
}

/// A statement: a loop, a `switchInt`, or an action and `;`.
pub open spec fn statement_end(toks: Seq<Token>, pos: int) -> Outcome
    decreases toks.len() - pos, 19int,
{
    let k = kind_at(toks, pos);
    if k == Kind::Loop {
        loop_end(toks, pos)
    } else if k == Kind::SwitchInt {
        switch_end(toks, pos)
    } else {
        match within(action_end(toks, pos), pos, toks.len() as int) {
            Ok(a) => step(toks, a, Kind::Semi),
            Err(e) => Err(e),
        }
    }
}

/// Statements up to `}`, which is not taken.
pub open spec fn statements_rest(toks: Seq<Token>, pos: int) -> Outcome
    decreases toks.len() - pos, 20int,
{
    if kind_at(toks, pos) != Kind::RBrace {
        match within(statement_end(toks, pos), pos, toks.len() as int) {
            Ok(n) => statements_rest(toks, n),
            Err(e) => Err(e),
        }
    } else {
        Ok(pos)
    }
}

/// A block: statements in braces.
pub open spec fn block_end(toks: Seq<Token>, pos: int) -> Outcome
    decreases toks.len() - pos, 17int,
{
    match step(toks, pos, Kind::LBrace) {
        Ok(a) => match statements_rest(toks, a) {
            Ok(b) => step(toks, b, Kind::RBrace),
            Err(e) => Err(e),
        },
        Err(e) => Err(e),
    }
}

/// A loop: `loop` and a block.
pub open spec fn loop_end(toks: Seq<Token>, pos: int) -> Outcome
    decreases toks.len() - pos, 18int,
{
    match step(toks, pos, Kind::Loop) {
        Ok(a) => block_end(toks, a),
        Err(e) => Err(e),
    }
}

/// The key of an arm: `_`, `true`, `false`, or a literal with or without
/// a minus sign.
pub open spec fn arm_key_end(toks: Seq<Token>, pos: int) -> Outcome {
    let k = kind_at(toks, pos);
    if k == Kind::Underscore || k == Kind::Bool {
        Ok(pos + 1)
    } else {
        signed_end(toks, pos)
    }
}

/// The body of an arm: `break`, a block, or one action.
pub open spec fn arm_body_end(toks: Seq<Token>, pos: int) -> Outcome
    decreases toks.len() - pos, 18int,
{
    if kind_at(toks, pos) == Kind::Break {
        Ok(pos + 1)
    } else if kind_at(toks, pos) == Kind::LBrace {
        block_end(toks, pos)
    } else {
        action_end(toks, pos)
    }
}

/// One arm: a key, `=>`, a body, and a comma if one follows.
pub open spec fn arm_end(toks: Seq<Token>, pos: int) -> Outcome
    decreases toks.len() - pos, 18int,
{
    match arm_key_end(toks, pos) {
        Ok(a) => match step(toks, a, Kind::Eq) {
            Ok(b) => match step(toks, b, Kind::Gt) {
                Ok(c) => match within(arm_body_end(toks, c), c, toks.len() as int) {
                    Ok(d) => if kind_at(toks, d) == Kind::Comma {
                        Ok(d + 1)
                    } else {
                        Ok(d)
                    },
                    Err(e) => Err(e),
                },
                Err(e) => Err(e),
            },
            Err(e) => Err(e),
        },
        Err(e) => Err(e),
    }
}

/// Arms up to `}`, which is not taken.
pub open spec fn arms_rest(toks: Seq<Token>, pos: int) -> Outcome
    decreases toks.len() - pos, 19int,
{
    if kind_at(toks, pos) != Kind::RBrace {
        match within(arm_end(toks, pos), pos, toks.len() as int) {
            Ok(n) => arms_rest(toks, n),
            Err(e) => Err(e),
        }
    } else {
        Ok(pos)
    }
}

/// A multi-way branch: `switchInt(operand) { arms }`.
pub open spec fn switch_end(toks: Seq<Token>, pos: int) -> Outcome
    decreases toks.len() - pos, 18int,
{
    match step(toks, pos, Kind::SwitchInt) {
        Ok(a) => match step(toks, a, Kind::LParen) {
            Ok(b) => match within(operand_end(toks, b), b, toks.len() as int) {
                Ok(c) => match step(toks, c, Kind::RParen) {
                    Ok(d) => match step(toks, d, Kind::LBrace) {
                        Ok(f) => match arms_rest(toks, f) {
                            Ok(g) => step(toks, g, Kind::RBrace),
                            Err(e) => Err(e),
                        },
                        Err(e) => Err(e),
                    },
                    Err(e) => Err(e),
                },
                Err(e) => Err(e),
            },
            Err(e) => Err(e),
        },
        Err(e) => Err(e),
    }
}

/// A declaration of metavariables: `meta!`, the items in any of the three
/// pairs of delimiters, and a semicolon if one follows.
pub open spec fn meta_end(toks: Seq<Token>, pos: int) -> Outcome {
    match step(toks, pos, Kind::Meta) {
        Ok(a) => match step(toks, a, Kind::Bang) {
            Ok(b) => {
                let open = kind_at(toks, b);
                if !is_open(open) {
                    if b < toks.len() {
                        Err(ParseError::UnexpectedToken)
                    } else {
                        Err(ParseError::UnexpectedEnd)
                    }
                } else {
                    match list_end(toks, b + 1, closing(open), Class::MetaItem) {
                        Ok(c) => match step(toks, c, closing(open)) {
                            Ok(d) => if kind_at(toks, d) == Kind::Semi {
                                Ok(d + 1)
                            } else {
                                Ok(d)
                            },
                            Err(e) => Err(e),
                        },
                        Err(e) => Err(e),
                    }
                }
            },
            Err(e) => Err(e),
        },
        Err(e) => Err(e),
    }
}

/// An import: `use path;`.
pub open spec fn use_end(toks: Seq<Token>, pos: int) -> Outcome {
    match step(toks, pos, Kind::Use) {
        Ok(a) => match within(path_end(toks, a), a, toks.len() as int) {
            Ok(b) => step(toks, b, Kind::Semi),
            Err(e) => Err(e),
        },
        Err(e) => Err(e),
    }
}

/// A type alias: `type Name = Type;`. A `<` after the name is refused with
/// an error of its own.
pub open spec fn type_decl_end(toks: Seq<Token>, pos: int) -> Outcome {
    match step(toks, pos, Kind::Type) {
        Ok(a) => match step_name(toks, a) {
            Ok(b) => if kind_at(toks, b) == Kind::Lt {
                Err(ParseError::TypeWithGenericsNotSupported)
            } else {
                match step(toks, b, Kind::Eq) {
                    Ok(c) => match within(type_end(toks, c), c, toks.len() as int) {
                        Ok(d) => step(toks, d, Kind::Semi),
                        Err(e) => Err(e),
                    },
                    Err(e) => Err(e),
                }
            },
            Err(e) => Err(e),
        },
        Err(e) => Err(e),
    }
}

/// A local: `let name: Type;` or `let name: Type = rvalue-or-call;`.
pub open spec fn let_end(toks: Seq<Token>, pos: int) -> Outcome {
    match step(toks, pos, Kind::Let) {
        Ok(a) => match step_name(toks, a) {
            Ok(b) => match step(toks, b, Kind::Colon) {
                Ok(c) => match within(type_end(toks, c), c, toks.len() as int) {
                    Ok(d) => if kind_at(toks, d) == Kind::Eq {
                        match within(rvalue_end(toks, d + 1), d + 1, toks.len() as int) {
                            Ok(f) => step(toks, f, Kind::Semi),
                            Err(e) => Err(e),
                        }
                    } else {
                        step(toks, d, Kind::Semi)
                    },
                    Err(e) => Err(e),
                },
                Err(e) => Err(e),
            },
            Err(e) => Err(e),
        },
        Err(e) => Err(e),
    }
}

/// A declaration, by its first token: `type` an alias, `use` an import,
/// anything else a local.
pub open spec fn declaration_end(toks: Seq<Token>, pos: int) -> Outcome {
    let k = kind_at(toks, pos);
    if k == Kind::Type {
        type_decl_end(toks, pos)
    } else if k == Kind::Use {
        use_end(toks, pos)
    } else {
        let_end(toks, pos)
    }
}

/// Statements up to the end of the input.
pub open spec fn body_rest(toks: Seq<Token>, pos: int) -> Outcome
    decreases toks.len() - pos,
{
    if 0 <= pos < toks.len() {
        match within(statement_end(toks, pos), pos, toks.len() as int) {
            Ok(n) => body_rest(toks, n),
            Err(e) => Err(e),
        }
    } else {
        Ok(pos)
    }
}

/// Locals, as long as `let` follows; then the body.
pub open spec fn lets_rest(toks: Seq<Token>, pos: int) -> Outcome
    decreases toks.len() - pos,
{
    if kind_at(toks, pos) == Kind::Let {
        match within(let_end(toks, pos), pos, toks.len() as int) {
            Ok(n) => lets_rest(toks, n),
            Err(e) => Err(e),
        }
    } else {
        body_rest(toks, pos)
    }
}

/// Type aliases, as long as `type` follows; then the locals.
pub open spec fn types_rest(toks: Seq<Token>, pos: int) -> Outcome
    decreases toks.len() - pos,
{
    if kind_at(toks, pos) == Kind::Type {
        match within(type_decl_end(toks, pos), pos, toks.len() as int) {
            Ok(n) => types_rest(toks, n),
            Err(e) => Err(e),
        }
    } else {
        lets_rest(toks, pos)
    }
}

/// Imports, as long as `use` follows; then the type aliases.
pub open spec fn uses_rest(toks: Seq<Token>, pos: int) -> Outcome
    decreases toks.len() - pos,
{
    if kind_at(toks, pos) == Kind::Use {
        match within(use_end(toks, pos), pos, toks.len() as int) {
            Ok(n) => uses_rest(toks, n),
            Err(e) => Err(e),
        }
    } else {
        types_rest(toks, pos)
    }
}

/// A pattern unit: metavariable declarations, as long as `meta!` follows;
/// then imports, type aliases, locals and the body, in that order.
pub open spec fn mir_end(toks: Seq<Token>, pos: int) -> Outcome
    decreases toks.len() - pos,
{
    if kind_at(toks, pos) == Kind::Meta && kind_at(toks, pos + 1) == Kind::Bang {
        match within(meta_end(toks, pos), pos, toks.len() as int) {
            Ok(n) => mir_end(toks, n),
            Err(e) => Err(e),
        }
    } else {
        uses_rest(toks, pos)
    }
}

} // verus!
