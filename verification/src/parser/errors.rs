//! Lexical errors.

use vstd::prelude::*;
use crate::parser::tokens::Loc;

verus! {

/// A lexical error, with the place in the source text where it was found.
#[derive(Clone, Copy, Debug, PartialEq, Eq, Structural)]
pub enum LexError {
    MalformedNumLit(Loc),
    UnexpectedToken(Loc),
    UnknownLexem(Loc),
}

impl LexError {
    /// Where the error was found.
    pub open spec fn spec_loc(self) -> Loc {
        match self {
            LexError::MalformedNumLit(loc) => loc,
            LexError::UnexpectedToken(loc) => loc,
            LexError::UnknownLexem(loc) => loc,
        }
    }

    /// What went wrong, in words, without the place.
    pub open spec fn spec_description(self) -> Seq<char> {
        match self {
            LexError::MalformedNumLit(_) => "неправильный float литерал"@,
            LexError::UnexpectedToken(_) => "неожиданное появление"@,
            LexError::UnknownLexem(_) => "неизвестная лексема"@,
        }
    }

    /// Where the error was found.
    #[verifier::when_used_as_spec(spec_loc)]
    pub fn loc(self) -> (loc: Loc)
        ensures
            loc == self.spec_loc(),
    {
        match self {
            LexError::MalformedNumLit(loc) => loc,
            LexError::UnexpectedToken(loc) => loc,
            LexError::UnknownLexem(loc) => loc,
        }
    }

    /// What went wrong, in words. A diagnostic shows the place in square
    /// brackets, a space, and then this text.
    pub fn description(self) -> (text: &'static str)
        ensures
            text@ == self.spec_description(),
    {
        match self {
            LexError::MalformedNumLit(_) => "неправильный float литерал",
            LexError::UnexpectedToken(_) => "неожиданное появление",
            LexError::UnknownLexem(_) => "неизвестная лексема",
        }
    }
}

} // verus!
