//! The canonical form of a value, as text and as tokens, and the laws that
//! tie it to the grammar.

use crate::error::ParseError;
use crate::parse::{complete, Outcome, Parse};
use crate::token::{int_at, punct_at, token_at, word_at, Token, Word};
use vstd::prelude::*;

verus! {

/// Whether the tokens `expected` stand in `tokens` from index `pos` on.
pub open spec fn holds(tokens: Seq<Token>, pos: int, expected: Seq<Token>) -> bool {
    &&& 0 <= pos
    &&& pos + expected.len() <= tokens.len()
    &&& forall|i: int| 0 <= i < expected.len() ==> tokens[pos + i] == #[trigger] expected[i]
}

/// Whether a value may end before index `end`, with nothing after it that
/// the grammar could take for a part of it: the input ends there, or goes on
/// with `to` and then with no time of day.
pub open spec fn closes(tokens: Seq<Token>, end: int) -> bool {
    ||| end >= tokens.len()
    ||| word_at(tokens, end) == Some(Word::To) && !(int_at(tokens, end + 1) && punct_at(
        tokens,
        end + 2,
        ':',
    ))
}

/// A production whose values have a canonical form.
pub trait Canonical: Parse {
    /// Whether the canonical form can be read back: no duration in the value
    /// is zero, for a duration of zero has the empty text.
    spec fn legible(self) -> bool;

    /// The canonical text.
    spec fn text(self) -> Seq<char>;

    /// The tokens of the canonical text.
    spec fn tokens(self) -> Seq<Token>;

    /// The tokens of the canonical text.
    fn to_tokens(&self) -> (r: Vec<Token>)
        ensures
            r@ == self.tokens(),
    ;

    /// Wherever the canonical tokens of a value stand in a token sequence
    /// and the value may end behind them, the production yields that value
    /// and ends there.
    proof fn reads_back(self, tokens: Seq<Token>, pos: int)
        requires
            self.wf(),
            self.legible(),
            holds(tokens, pos, self.tokens()),
            closes(tokens, pos + self.tokens().len()),
        ensures
            Self::grammar(tokens, pos) == (Outcome::Done {
                value: self,
                end: pos + self.tokens().len(),
            }),
    ;
}

/// The tokens of `first` with those of `second` after them.
pub fn joined(first: Vec<Token>, second: Vec<Token>) -> (r: Vec<Token>)
    ensures
        r@ == first@ + second@,
{
    let mut all = first;
    let mut rest = second;
    all.append(&mut rest);
    all
}

/// The token at index `pos + i` is the `i`-th of the tokens that stand
/// there.
pub proof fn lemma_holds_at(tokens: Seq<Token>, pos: int, expected: Seq<Token>, i: int)
    requires
        holds(tokens, pos, expected),
        0 <= i < expected.len(),
    ensures
        token_at(tokens, pos + i) == Some(expected[i]),
{
}

/// Where a sequence in two parts stands, each part stands in its place.
pub proof fn lemma_holds_parts(tokens: Seq<Token>, pos: int, first: Seq<Token>, second: Seq<Token>)
    requires
        holds(tokens, pos, first + second),
    ensures
        holds(tokens, pos, first),
        holds(tokens, pos + first.len(), second),
{
    let whole = first + second;
    assert forall|i: int| 0 <= i < first.len() implies tokens[pos + i] == #[trigger] first[i] by {
        assert(whole[i] == first[i]);
    }
    assert forall|i: int| 0 <= i < second.len() implies tokens[pos + first.len() + i]
        == #[trigger] second[i] by {
        assert(whole[first.len() + i] == second[i]);
    }
}

/// Parsing the canonical tokens of a value gives the value back.
pub proof fn law_round_trip<T: Canonical>(value: T)
    requires
        value.wf(),
        value.legible(),
    ensures
        complete::<T>(value.tokens()) == Ok::<T, ParseError>(value),
{
    value.reads_back(value.tokens(), 0);
}

/// Rendering what was parsed from a canonical form gives the same canonical
/// form again, as text and as tokens.
pub proof fn law_render_is_idempotent<T: Canonical>(value: T)
    requires
        value.wf(),
        value.legible(),
    ensures
        complete::<T>(value.tokens()) matches Ok(again) && again.text() == value.text()
            && again.tokens() == value.tokens(),
{
    law_round_trip(value);
}

} // verus!
