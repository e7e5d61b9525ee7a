use vstd::prelude::*;

verus! {

/// Why a run of tokens is not a sentence of the production asked for.
#[derive(Clone, Copy, Debug, PartialEq, Eq, Structural)]
pub enum ParseError {
    /// The keyword `crate` stands where a path segment must be a plain identifier.
    ReservedCrate,
    /// The self-reference marker `$crate` is not followed by `::`.
    ExpectedPathSep,
    /// The input ends where an identifier must follow.
    EndExpectedIdent,
    /// The input ends where the parenthesised kind of a cast must follow.
    EndExpectedParens,
    /// The input ends in the middle of any other construct.
    UnexpectedEnd,
    /// A token that no alternative of the grammar accepts at its place.
    UnexpectedToken,
    /// The declared name of a type alias carries generic parameters.
    TypeWithGenericsNotSupported,
    /// The source text is not a sequence of tokens.
    Lex,
}

impl ParseError {
    /// The fixed text of each diagnostic.
    pub open spec fn text(self) -> Seq<char> {
        match self {
            ParseError::ReservedCrate => "expected identifier, found keyword `crate`"@,
            ParseError::ExpectedPathSep => "expected `::`"@,
            ParseError::EndExpectedIdent => "unexpected end of input, expected identifier"@,
            ParseError::EndExpectedParens => "unexpected end of input, expected parentheses"@,
            ParseError::UnexpectedEnd => "unexpected end of input"@,
            ParseError::UnexpectedToken => "unexpected token"@,
            ParseError::TypeWithGenericsNotSupported => "generic parameters are not supported on a type declaration"@,
            ParseError::Lex => "cannot parse string into token stream"@,
        }
    }

    /// The user-facing message of this error.
    pub fn message(&self) -> (r: String)
        ensures
            r@ == self.text(),
    {
        match self {
            ParseError::ReservedCrate => "expected identifier, found keyword `crate`".to_owned(),
            ParseError::ExpectedPathSep => "expected `::`".to_owned(),
            ParseError::EndExpectedIdent => "unexpected end of input, expected identifier".to_owned(),
            ParseError::EndExpectedParens => "unexpected end of input, expected parentheses".to_owned(),
            ParseError::UnexpectedEnd => "unexpected end of input".to_owned(),
            ParseError::UnexpectedToken => "unexpected token".to_owned(),
            ParseError::TypeWithGenericsNotSupported => "generic parameters are not supported on a type declaration".to_owned(),
            ParseError::Lex => "cannot parse string into token stream".to_owned(),
        }
    }
}

} // verus!
