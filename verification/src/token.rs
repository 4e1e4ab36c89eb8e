//! Tokens, and the closed set of words that the language knows.

use vstd::prelude::*;

verus! {

/// A word of the language, free of case. `Other` stands for every
/// identifier that the language gives no meaning to.
#[derive(Copy, Clone, Debug, PartialEq, Eq, Structural, Hash)]
pub enum Word {
    Mins,
    Minutes,
    Minute,
    Min,
    Hours,
    Hrs,
    Hour,
    Hr,
    Days,
    Day,
    Weeks,
    Week,
    Months,
    Month,
    Years,
    Yr,
    Year,
    Monday,
    Tuesday,
    Wednesday,
    Thursday,
    Friday,
    Saturday,
    Sunday,
    Now,
    Today,
    Tomorrow,
    Yesterday,
    The,
    After,
    Before,
    Ago,
    From,
    Next,
    Last,
    To,
    At,
    And,
    Am,
    Pm,
    Other,
}

/// One token of the input, as the grammar reads it.
#[derive(Copy, Clone, Debug, PartialEq, Eq, Structural, Hash)]
pub enum Token {
    /// An identifier.
    Ident(Word),
    /// An integer literal with its value.
    Int(u64),
    /// An integer literal whose value is outside `u64`.
    BigInt,
    /// A punctuation character.
    Punct(char),
    /// Anything else: a keyword of the host syntax, a literal that is no
    /// integer, a bracketed group.
    Other,
}

impl Token {
    /// Whether the token is an integer literal, of whatever size.
    pub open spec fn is_int(self) -> bool {
        self is Int || self is BigInt
    }
}

/// The token at index `pos`, if there is one.
pub open spec fn token_at(tokens: Seq<Token>, pos: int) -> Option<Token> {
    if 0 <= pos < tokens.len() {
        Some(tokens[pos])
    } else {
        None
    }
}

/// The word at index `pos`, if the token there is an identifier.
pub open spec fn word_at(tokens: Seq<Token>, pos: int) -> Option<Word> {
    match token_at(tokens, pos) {
        Some(Token::Ident(word)) => Some(word),
        _ => None,
    }
}

/// Whether the token at index `pos` is an integer literal.
pub open spec fn int_at(tokens: Seq<Token>, pos: int) -> bool {
    match token_at(tokens, pos) {
        Some(token) => token.is_int(),
        None => false,
    }
}

/// Whether the token at index `pos` is the punctuation `mark`.
pub open spec fn punct_at(tokens: Seq<Token>, pos: int, mark: char) -> bool {
    token_at(tokens, pos) == Some(Token::Punct(mark))
}

} // verus!
