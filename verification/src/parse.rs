//! What it means to parse: the outcome of a production on a token sequence,
//! and the steps that every production is made of.

use crate::cursor::Cursor;
use crate::error::{Expected, ParseError};
use crate::lex::{tokenize, tokens_of};
use crate::token::{token_at, Token, Word};
use vstd::prelude::*;

verus! {

/// What a production yields on a token sequence from a given index: a value
/// and the index after its last token, or the index of the offending token
/// and what was expected there.
pub enum Outcome<T> {
    Done { value: T, end: int },
    Failed { at: int, expected: Expected },
}

impl<T> Outcome<T> {
    /// Goes on with `next` after a success, and keeps a failure as it is.
    pub open spec fn and_then<U>(self, next: spec_fn(T, int) -> Outcome<U>) -> Outcome<U> {
        match self {
            Outcome::Done { value, end } => next(value, end),
            Outcome::Failed { at, expected } => Outcome::Failed { at, expected },
        }
    }

    /// The value of a success.
    pub open spec fn value(self) -> Option<T> {
        match self {
            Outcome::Done { value, .. } => Some(value),
            Outcome::Failed { .. } => None,
        }
    }

    /// The index after a success, and `pos` after a failure.
    pub open spec fn end_or(self, pos: int) -> int {
        match self {
            Outcome::Done { end, .. } => end,
            Outcome::Failed { .. } => pos,
        }
    }

    /// The same outcome with the value changed by `f`.
    pub open spec fn map<U>(self, f: spec_fn(T) -> U) -> Outcome<U> {
        match self {
            Outcome::Done { value, end } => Outcome::Done { value: f(value), end },
            Outcome::Failed { at, expected } => Outcome::Failed { at, expected },
        }
    }
}

impl<'a> Cursor<'a> {
    /// Whether a parse that started at this cursor and was to yield `outcome`
    /// may end with the cursor `after` and the result `result`: a success
    /// returns the value and leaves the cursor behind its last token, a
    /// failure returns the error and leaves the cursor where it was.
    pub open spec fn settles<T>(
        self,
        after: Cursor<'a>,
        result: Result<T, ParseError>,
        outcome: Outcome<T>,
    ) -> bool {
        &&& after.tokens == self.tokens
        &&& match outcome {
            Outcome::Done { value, end } => result == Ok::<T, ParseError>(value) && after.pos
                == end,
            Outcome::Failed { at, expected } => {
                &&& result matches Err(e)
                &&& e.position == at
                &&& e.expected == expected
                &&& after.pos == self.pos
            },
        }
    }
}

/// A production of the grammar.
pub trait Parse: Sized {
    /// Whether every field of the value lies within its bounds.
    spec fn wf(self) -> bool;

    /// What the production yields on `tokens` from index `pos`.
    spec fn grammar(tokens: Seq<Token>, pos: int) -> Outcome<Self>;

    /// Whatever the production yields stays within the input: a value
    /// lies within its bounds and ends behind one token or more, and a
    /// failure names a token from the start on, or the end of the input.
    proof fn yields_within(tokens: Seq<Token>, pos: int)
        requires
            0 <= pos <= tokens.len(),
        ensures
            match Self::grammar(tokens, pos) {
                Outcome::Done { value, end } => value.wf() && pos < end <= tokens.len(),
                Outcome::Failed { at, expected } => pos <= at <= tokens.len(),
            },
    ;

    /// Parses one value at the cursor. On success the cursor is left behind
    /// the value's last token; on failure it is not moved. A value that was
    /// parsed lies within its bounds.
    fn parse(input: &mut Cursor<'_>) -> (result: Result<Self, ParseError>)
        ensures
            old(input).settles(
                *final(input),
                result,
                Self::grammar(old(input).tokens@, old(input).pos as int),
            ),
            result matches Ok(value) ==> value.wf(),
    ;
}

/// An identifier at `pos`.
pub open spec fn identifier(tokens: Seq<Token>, pos: int) -> Outcome<Word> {
    match token_at(tokens, pos) {
        Some(Token::Ident(word)) => Outcome::Done { value: word, end: pos + 1 },
        _ => Outcome::Failed { at: pos, expected: Expected::Identifier },
    }
}

/// An integer literal at `pos` that fits in `u64`.
pub open spec fn integer(tokens: Seq<Token>, pos: int) -> Outcome<u64> {
    match token_at(tokens, pos) {
        Some(Token::Int(n)) => Outcome::Done { value: n, end: pos + 1 },
        Some(Token::BigInt) => Outcome::Failed { at: pos, expected: Expected::Fit },
        _ => Outcome::Failed { at: pos, expected: Expected::Integer },
    }
}

/// An integer literal at `pos` that is at most `max`.
pub open spec fn integer_up_to(tokens: Seq<Token>, pos: int, max: u64) -> Outcome<u64> {
    match integer(tokens, pos) {
        Outcome::Done { value, end } => if value <= max {
            Outcome::Done { value, end }
        } else {
            Outcome::Failed { at: pos, expected: Expected::Fit }
        },
        failed => failed,
    }
}

/// The punctuation `mark` at `pos`; `expected` names it in a failure.
pub open spec fn punct(tokens: Seq<Token>, pos: int, mark: char, expected: Expected) -> Outcome<
    (),
> {
    if token_at(tokens, pos) == Some(Token::Punct(mark)) {
        Outcome::Done { value: (), end: pos + 1 }
    } else {
        Outcome::Failed { at: pos, expected }
    }
}

/// The word `word` at `pos`; `expected` names it in a failure.
pub open spec fn keyword(tokens: Seq<Token>, pos: int, word: Word, expected: Expected) -> Outcome<
    (),
> {
    if token_at(tokens, pos) == Some(Token::Ident(word)) {
        Outcome::Done { value: (), end: pos + 1 }
    } else {
        Outcome::Failed { at: pos, expected }
    }
}

/// What a production yields when it has to use up the whole input.
pub open spec fn complete<T: Parse>(tokens: Seq<Token>) -> Result<T, ParseError> {
    match T::grammar(tokens, 0) {
        Outcome::Done { value, end } => if end >= tokens.len() {
            Ok(value)
        } else {
            Err(ParseError { position: end as usize, expected: Expected::End })
        },
        Outcome::Failed { at, expected } => Err(
            ParseError { position: at as usize, expected },
        ),
    }
}

/// What a production yields on a text: the text is split into tokens, and
/// the production has to use them all up.
pub open spec fn read<T: Parse>(text: Seq<char>) -> Result<T, ParseError> {
    match tokens_of(text) {
        Some(tokens) => complete::<T>(tokens),
        None => Err(ParseError { position: 0, expected: Expected::Tokens }),
    }
}

/// Consumes an identifier.
pub fn take_identifier(input: &mut Cursor<'_>) -> (result: Result<Word, ParseError>)
    ensures
        old(input).settles(
            *final(input),
            result,
            identifier(old(input).tokens@, old(input).pos as int),
        ),
{
    match input.peek() {
        Some(Token::Ident(word)) => {
            input.advance();
            Ok(word)
        },
        _ => Err(ParseError { position: input.pos, expected: Expected::Identifier }),
    }
}

/// Consumes an integer literal that is at most `max`.
pub fn take_integer(input: &mut Cursor<'_>, max: u64) -> (result: Result<u64, ParseError>)
    ensures
        old(input).settles(
            *final(input),
            result,
            integer_up_to(old(input).tokens@, old(input).pos as int, max),
        ),
{
    match input.peek() {
        Some(Token::Int(n)) => {
            if n <= max {
                input.advance();
                Ok(n)
            } else {
                Err(ParseError { position: input.pos, expected: Expected::Fit })
            }
        },
        Some(Token::BigInt) => Err(ParseError { position: input.pos, expected: Expected::Fit }),
        _ => Err(ParseError { position: input.pos, expected: Expected::Integer }),
    }
}

/// Consumes the punctuation `mark`; `expected` names it in a failure.
pub fn take_punct(input: &mut Cursor<'_>, mark: char, expected: Expected) -> (result: Result<
    (),
    ParseError,
>)
    ensures
        old(input).settles(
            *final(input),
            result,
            punct(old(input).tokens@, old(input).pos as int, mark, expected),
        ),
{
    if input.peek_punct_at(0, mark) {
        input.advance();
        Ok(())
    } else {
        Err(ParseError { position: input.pos, expected })
    }
}

/// Consumes the word `word`; `expected` names it in a failure.
pub fn take_keyword(input: &mut Cursor<'_>, word: Word, expected: Expected) -> (result: Result<
    (),
    ParseError,
>)
    ensures
        old(input).settles(
            *final(input),
            result,
            keyword(old(input).tokens@, old(input).pos as int, word, expected),
        ),
{
    if input.peek_word_at(0) == Some(word) {
        input.advance();
        Ok(())
    } else {
        Err(ParseError { position: input.pos, expected })
    }
}

/// Parses `tokens` as one `T` with nothing left over.
pub fn parse_tokens<T: Parse>(tokens: &[Token]) -> (result: Result<T, ParseError>)
    ensures
        result == complete::<T>(tokens@),
        result matches Ok(value) ==> value.wf(),
{
    let mut input = Cursor::new(tokens);
    let value = T::parse(&mut input)?;
    if input.is_empty() {
        Ok(value)
    } else {
        Err(ParseError { position: input.pos, expected: Expected::End })
    }
}

/// Parses `text` as one `T` with nothing left over.
pub fn parse_str<T: Parse>(text: &str) -> (result: Result<T, ParseError>)
    ensures
        result == read::<T>(text@),
        result matches Ok(value) ==> value.wf(),
{
    match tokenize(text) {
        Some(tokens) => parse_tokens(tokens.as_slice()),
        None => Err(ParseError { position: 0, expected: Expected::Tokens }),
    }
}

} // verus!
