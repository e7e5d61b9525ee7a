use vstd::prelude::*;

verus! {

/// The role a token plays in the grammar.
#[derive(Clone, Copy, Debug, PartialEq, Eq, Structural)]
pub enum Kind {
    Ident,
    Literal,
    Crate,
    As,
    Of,
    From,
    Copy,
    Move,
    Const,
    Mut,
    Raw,
    Let,
    Type,
    Use,
    Meta,
    Loop,
    SwitchInt,
    Break,
    Drop,
    Bool,
    Underscore,
    Colon,
    Semi,
    Comma,
    Eq,
    Star,
    Amp,
    Lt,
    Gt,
    Minus,
    Dollar,
    Dot,
    Bang,
    LParen,
    RParen,
    LBracket,
    RBracket,
    LBrace,
    RBrace,
    Other,
    /// What `peek` reports past the last token; no token has this kind.
    End,
}

/// One token: its text as written, and the role that text has.
#[derive(Clone, Debug, PartialEq, Eq)]
pub struct Token {
    pub kind: Kind,
    pub text: String,
}

/// The role of an identifier-like word.
pub open spec fn word_kind(s: Seq<char>) -> Kind {
    if s == "crate"@ {
        Kind::Crate
    } else if s == "as"@ {
        Kind::As
    } else if s == "of"@ {
        Kind::Of
    } else if s == "from"@ {
        Kind::From
    } else if s == "copy"@ {
        Kind::Copy
    } else if s == "move"@ {
        Kind::Move
    } else if s == "const"@ {
        Kind::Const
    } else if s == "mut"@ {
        Kind::Mut
    } else if s == "raw"@ {
        Kind::Raw
    } else if s == "let"@ {
        Kind::Let
    } else if s == "type"@ {
        Kind::Type
    } else if s == "use"@ {
        Kind::Use
    } else if s == "meta"@ {
        Kind::Meta
    } else if s == "loop"@ {
        Kind::Loop
    } else if s == "switchInt"@ {
        Kind::SwitchInt
    } else if s == "break"@ {
        Kind::Break
    } else if s == "drop"@ {
        Kind::Drop
    } else if s == "true"@ || s == "false"@ {
        Kind::Bool
    } else if s == "_"@ {
        Kind::Underscore
    } else {
        Kind::Ident
    }
}

/// The role of a punctuation character or of a delimiter.
pub open spec fn mark_kind(s: Seq<char>) -> Kind {
    if s == ":"@ {
        Kind::Colon
    } else if s == ";"@ {
        Kind::Semi
    } else if s == ","@ {
        Kind::Comma
    } else if s == "="@ {
        Kind::Eq
    } else if s == "*"@ {
        Kind::Star
    } else if s == "&"@ {
        Kind::Amp
    } else if s == "<"@ {
        Kind::Lt
    } else if s == ">"@ {
        Kind::Gt
    } else if s == "-"@ {
        Kind::Minus
    } else if s == "$"@ {
        Kind::Dollar
    } else if s == "."@ {
        Kind::Dot
    } else if s == "!"@ {
        Kind::Bang
    } else if s == "("@ {
        Kind::LParen
    } else if s == ")"@ {
        Kind::RParen
    } else if s == "["@ {
        Kind::LBracket
    } else if s == "]"@ {
        Kind::RBracket
    } else if s == "{"@ {
        Kind::LBrace
    } else if s == "}"@ {
        Kind::RBrace
    } else {
        Kind::Other
    }
}

/// Whether `a` holds exactly the characters of `b`.
pub fn is_text(a: &String, b: &str) -> (r: bool)
    ensures
        r == (a@ == b@),
{
    let o = b.to_owned();
    a.eq(&o)
}

impl Token {
    /// A copy of this token, equal to it in kind and text.
    pub fn dup(&self) -> (r: Token)
        ensures
            r == *self,
    {
        Token { kind: self.kind, text: self.text.clone() }
    }

    /// The token of an identifier-like word.
    pub fn word(text: String) -> (r: Token)
        ensures
            r.text == text,
            r.kind == word_kind(text@),
    {
        let kind = if is_text(&text, "crate") {
            Kind::Crate
        } else if is_text(&text, "as") {
            Kind::As
        } else if is_text(&text, "of") {
            Kind::Of
        } else if is_text(&text, "from") {
            Kind::From
        } else if is_text(&text, "copy") {
            Kind::Copy
        } else if is_text(&text, "move") {
            Kind::Move
        } else if is_text(&text, "const") {
            Kind::Const
        } else if is_text(&text, "mut") {
            Kind::Mut
        } else if is_text(&text, "raw") {
            Kind::Raw
        } else if is_text(&text, "let") {
            Kind::Let
        } else if is_text(&text, "type") {
            Kind::Type
        } else if is_text(&text, "use") {
            Kind::Use
        } else if is_text(&text, "meta") {
            Kind::Meta
        } else if is_text(&text, "loop") {
            Kind::Loop
        } else if is_text(&text, "switchInt") {
            Kind::SwitchInt
        } else if is_text(&text, "break") {
            Kind::Break
        } else if is_text(&text, "drop") {
            Kind::Drop
        } else if is_text(&text, "true") || is_text(&text, "false") {
            Kind::Bool
        } else if is_text(&text, "_") {
            Kind::Underscore
        } else {
            Kind::Ident
        };
        Token { kind, text }
    }

    /// The token of a punctuation character or of a delimiter.
    pub fn mark(text: String) -> (r: Token)
        ensures
            r.text == text,
            r.kind == mark_kind(text@),
    {
        let kind = if is_text(&text, ":") {
            Kind::Colon
        } else if is_text(&text, ";") {
            Kind::Semi
        } else if is_text(&text, ",") {
            Kind::Comma
        } else if is_text(&text, "=") {
            Kind::Eq
        } else if is_text(&text, "*") {
            Kind::Star
        } else if is_text(&text, "&") {
            Kind::Amp
        } else if is_text(&text, "<") {
            Kind::Lt
        } else if is_text(&text, ">") {
            Kind::Gt
        } else if is_text(&text, "-") {
            Kind::Minus
        } else if is_text(&text, "$") {
            Kind::Dollar
        } else if is_text(&text, ".") {
            Kind::Dot
        } else if is_text(&text, "!") {
            Kind::Bang
        } else if is_text(&text, "(") {
            Kind::LParen
        } else if is_text(&text, ")") {
            Kind::RParen
        } else if is_text(&text, "[") {
            Kind::LBracket
        } else if is_text(&text, "]") {
            Kind::RBracket
        } else if is_text(&text, "{") {
            Kind::LBrace
        } else if is_text(&text, "}") {
            Kind::RBrace
        } else {
            Kind::Other
        };
        Token { kind, text }
    }

    /// The token of a literal.
    pub fn literal(text: String) -> (r: Token)
        ensures
            r.text == text,
            r.kind == Kind::Literal,
    {
        Token { kind: Kind::Literal, text }
    }
}

} // verus!
