//! A position in a token sequence that can be read ahead of and copied.

use crate::token::{int_at, punct_at, token_at, word_at, Token, Word};
use vstd::prelude::*;

verus! {

/// A position in a sequence of tokens. Copying a cursor forks it: the copy
/// moves on its own, and the cursor it was taken from stays where it was.
#[derive(Copy, Clone, Debug)]
pub struct Cursor<'a> {
    /// The whole input.
    pub tokens: &'a [Token],
    /// The index of the next token.
    pub pos: usize,
}

impl<'a> Cursor<'a> {
    /// A cursor at the start of `tokens`.
    pub fn new(tokens: &'a [Token]) -> (r: Cursor<'a>)
        ensures
            r.tokens == tokens,
            r.pos == 0,
    {
        Cursor { tokens, pos: 0 }
    }

    /// The token `offset` places ahead, without consuming anything.
    pub fn peek_at(&self, offset: usize) -> (r: Option<Token>)
        ensures
            r == token_at(self.tokens@, self.pos + offset),
    {
        if self.pos < self.tokens.len() && offset < self.tokens.len() - self.pos {
            Some(self.tokens[self.pos + offset])
        } else {
            None
        }
    }

    /// The next token, without consuming it.
    pub fn peek(&self) -> (r: Option<Token>)
        ensures
            r == token_at(self.tokens@, self.pos as int),
    {
        self.peek_at(0)
    }

    /// The word `offset` places ahead, if the token there is an identifier.
    pub fn peek_word_at(&self, offset: usize) -> (r: Option<Word>)
        ensures
            r == word_at(self.tokens@, self.pos + offset),
    {
        match self.peek_at(offset) {
            Some(Token::Ident(word)) => Some(word),
            _ => None,
        }
    }

    /// Whether the token `offset` places ahead is an integer literal.
    pub fn peek_int_at(&self, offset: usize) -> (r: bool)
        ensures
            r == int_at(self.tokens@, self.pos + offset),
    {
        match self.peek_at(offset) {
            Some(Token::Int(_)) => true,
            Some(Token::BigInt) => true,
            _ => false,
        }
    }

    /// Whether the token `offset` places ahead is the punctuation `mark`.
    pub fn peek_punct_at(&self, offset: usize, mark: char) -> (r: bool)
        ensures
            r == punct_at(self.tokens@, self.pos + offset, mark),
    {
        match self.peek_at(offset) {
            Some(Token::Punct(c)) => c == mark,
            _ => false,
        }
    }

    /// Whether no token is left.
    pub fn is_empty(&self) -> (r: bool)
        ensures
            r == (self.pos >= self.tokens@.len()),
    {
        self.pos >= self.tokens.len()
    }

    /// Consumes one token, if one is left.
    pub fn advance(&mut self)
        ensures
            final(self).tokens == old(self).tokens,
            final(self).pos == if old(self).pos < old(self).tokens@.len() {
                old(self).pos + 1
            } else {
                old(self).pos as int
            },
    {
        if self.pos < self.tokens.len() {
            self.pos = self.pos + 1;
        }
    }

    /// An independent copy at the same position.
    pub fn fork(&self) -> (r: Cursor<'a>)
        ensures
            r == *self,
    {
        *self
    }
}

} // verus!
