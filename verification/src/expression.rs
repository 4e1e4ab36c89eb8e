//! The root of the language: a point in time, a range between two of them,
//! or a duration.

use crate::absolute::{lemma_absolute_starts, AbsoluteTime};
use crate::canonical::{joined, lemma_holds_at, lemma_holds_parts, Canonical};
use crate::cursor::Cursor;
use crate::duration::{lemma_items_start_with_number, lemma_nonzero_has_items, Duration};
use crate::error::{Expected, ParseError};
use crate::parse::{keyword, parse_str, read, take_keyword, Outcome, Parse};
use crate::relative::{lemma_relative_starts, RelativeTime};
use crate::token::{int_at, punct_at, word_at, Token, Word};
use vstd::prelude::*;
use vstd::string::StringExecFns;

verus! {

/// A point in time, fixed or relative to another.
#[derive(Copy, Clone, Debug, PartialEq, Eq, Structural, Ord, Hash)]
pub enum PointInTime {
    Absolute(AbsoluteTime),
    Relative(RelativeTime),
}

/// The time from one point to another. Nothing asks that the first point
/// comes before the second.
#[derive(Copy, Clone, Debug, PartialEq, Eq, Structural, Ord, Hash)]
pub struct TimeRange(pub PointInTime, pub PointInTime);

/// Any expression of the language.
#[derive(Copy, Clone, Debug, PartialEq, Eq, Structural, Ord, Hash)]
pub enum TimeExpression {
    Specific(PointInTime),
    Range(TimeRange),
    Duration(Duration),
}

/// Whether a date starts at index `pos`, to judge by an integer literal
/// with `/` after it.
pub open spec fn date_starts(tokens: Seq<Token>, pos: int) -> bool {
    int_at(tokens, pos) && punct_at(tokens, pos + 1, '/')
}

impl Parse for PointInTime {
    open spec fn wf(self) -> bool {
        match self {
            PointInTime::Absolute(time) => time.wf(),
            PointInTime::Relative(time) => time.wf(),
        }
    }

    /// An absolute time where a date starts, else a relative time.
    open spec fn grammar(tokens: Seq<Token>, pos: int) -> Outcome<PointInTime> {
        if date_starts(tokens, pos) {
            AbsoluteTime::grammar(tokens, pos).map(
                |time: AbsoluteTime| PointInTime::Absolute(time),
            )
        } else {
            RelativeTime::grammar(tokens, pos).map(
                |time: RelativeTime| PointInTime::Relative(time),
            )
        }
    }

    proof fn yields_within(tokens: Seq<Token>, pos: int) {
        AbsoluteTime::yields_within(tokens, pos);
        RelativeTime::yields_within(tokens, pos);
    }

    fn parse(input: &mut Cursor<'_>) -> (result: Result<PointInTime, ParseError>) {
        if input.peek_int_at(0) && input.peek_punct_at(1, '/') {
            let time = AbsoluteTime::parse(input)?;
            Ok(PointInTime::Absolute(time))
        } else {
            let time = RelativeTime::parse(input)?;
            Ok(PointInTime::Relative(time))
        }
    }
}

impl Canonical for PointInTime {
    open spec fn legible(self) -> bool {
        match self {
            PointInTime::Absolute(time) => time.legible(),
            PointInTime::Relative(time) => time.legible(),
        }
    }

    open spec fn text(self) -> Seq<char> {
        match self {
            PointInTime::Absolute(time) => time.text(),
            PointInTime::Relative(time) => time.text(),
        }
    }

    open spec fn tokens(self) -> Seq<Token> {
        match self {
            PointInTime::Absolute(time) => time.tokens(),
            PointInTime::Relative(time) => time.tokens(),
        }
    }

    fn to_tokens(&self) -> (r: Vec<Token>) {
        match self {
            PointInTime::Absolute(time) => time.to_tokens(),
            PointInTime::Relative(time) => time.to_tokens(),
        }
    }

    proof fn reads_back(self, tokens: Seq<Token>, pos: int) {
        lemma_point_starts(self);
        lemma_holds_at(tokens, pos, self.tokens(), 0);
        match self {
            PointInTime::Absolute(time) => {
                lemma_holds_at(tokens, pos, self.tokens(), 1);
                time.reads_back(tokens, pos);
            },
            PointInTime::Relative(time) => {
                if self.tokens()[0] is Int {
                    lemma_holds_at(tokens, pos, self.tokens(), 1);
                }
                time.reads_back(tokens, pos);
            },
        }
    }
}

impl PointInTime {
    /// The canonical text.
    pub fn to_string(&self) -> (r: String)
        ensures
            r@ == self.text(),
    {
        match self {
            PointInTime::Absolute(time) => time.to_string(),
            PointInTime::Relative(time) => time.to_string(),
        }
    }
}

impl core::str::FromStr for PointInTime {
    type Err = ParseError;

    fn from_str(text: &str) -> (result: Result<PointInTime, ParseError>)
        ensures
            result == read::<PointInTime>(text@),
            result matches Ok(value) ==> value.wf(),
    {
        parse_str(text)
    }
}

impl Parse for TimeRange {
    open spec fn wf(self) -> bool {
        self.0.wf() && self.1.wf()
    }

    /// `from`, a point in time, `to`, a point in time.
    open spec fn grammar(tokens: Seq<Token>, pos: int) -> Outcome<TimeRange> {
        keyword(tokens, pos, Word::From, Expected::From).and_then(
            |u1: (), e1: int|
                PointInTime::grammar(tokens, e1).and_then(
                    |start: PointInTime, e2: int|
                        keyword(tokens, e2, Word::To, Expected::To).and_then(
                            |u2: (), e3: int|
                                PointInTime::grammar(tokens, e3).map(
                                    |end: PointInTime| TimeRange(start, end),
                                ),
                        ),
                ),
        )
    }

    proof fn yields_within(tokens: Seq<Token>, pos: int) {
        if pos < tokens.len() {
            PointInTime::yields_within(tokens, pos + 1);
            if let Outcome::Done { value, end } = PointInTime::grammar(tokens, pos + 1) {
                if end < tokens.len() {
                    PointInTime::yields_within(tokens, end + 1);
                }
            }
        }
    }

    fn parse(input: &mut Cursor<'_>) -> (result: Result<TimeRange, ParseError>) {
        let mut cursor = input.fork();
        take_keyword(&mut cursor, Word::From, Expected::From)?;
        let start = PointInTime::parse(&mut cursor)?;
        take_keyword(&mut cursor, Word::To, Expected::To)?;
        let end = PointInTime::parse(&mut cursor)?;
        *input = cursor;
        Ok(TimeRange(start, end))
    }
}

impl Canonical for TimeRange {
    open spec fn legible(self) -> bool {
        self.0.legible() && self.1.legible()
    }

    /// `from`, the first point, `to`, the second point.
    open spec fn text(self) -> Seq<char> {
        "from "@ + self.0.text() + " to "@ + self.1.text()
    }

    open spec fn tokens(self) -> Seq<Token> {
        seq![Token::Ident(Word::From)] + self.0.tokens() + seq![Token::Ident(Word::To)]
            + self.1.tokens()
    }

    fn to_tokens(&self) -> (r: Vec<Token>) {
        let mut tokens = joined(vec![Token::Ident(Word::From)], self.0.to_tokens());
        tokens.push(Token::Ident(Word::To));
        joined(tokens, self.1.to_tokens())
    }

    proof fn reads_back(self, tokens: Seq<Token>, pos: int) {
        let from = seq![Token::Ident(Word::From)];
        let to = seq![Token::Ident(Word::To)];
        let start = self.0.tokens();
        let end = self.1.tokens();
        assert(self.tokens() =~= from + (start + (to + end)));
        lemma_holds_parts(tokens, pos, from, start + (to + end));
        lemma_holds_parts(tokens, pos + 1, start, to + end);
        lemma_holds_parts(tokens, pos + 1 + start.len(), to, end);
        lemma_holds_at(tokens, pos, from, 0);
        lemma_holds_at(tokens, pos + 1 + start.len(), to, 0);
        lemma_point_starts(self.1);
        lemma_holds_at(tokens, pos + 2 + start.len(), end, 0);
        if end[0] is Int {
            lemma_holds_at(tokens, pos + 2 + start.len(), end, 1);
        }
        self.0.reads_back(tokens, pos + 1);
        self.1.reads_back(tokens, pos + 2 + start.len());
    }
}

impl TimeRange {
    /// The canonical text.
    pub fn to_string(&self) -> (r: String)
        ensures
            r@ == self.text(),
    {
        let start = self.0.to_string();
        let end = self.1.to_string();
        String::from_str("from ").concat(start.as_str()).concat(" to ").concat(end.as_str())
    }
}

impl Parse for TimeExpression {
    open spec fn wf(self) -> bool {
        match self {
            TimeExpression::Specific(point) => point.wf(),
            TimeExpression::Range(range) => range.wf(),
            TimeExpression::Duration(_) => true,
        }
    }

    /// A range where `from` comes first, and a point in time where a date
    /// starts. Else a point in time is tried, and where that fails, a
    /// duration is read and reports the failure if it fails too.
    open spec fn grammar(tokens: Seq<Token>, pos: int) -> Outcome<TimeExpression> {
        if word_at(tokens, pos) is None && !int_at(tokens, pos) {
            Outcome::Failed { at: pos, expected: Expected::NumberOrKeyword }
        } else if word_at(tokens, pos) == Some(Word::From) {
            TimeRange::grammar(tokens, pos).map(|range: TimeRange| TimeExpression::Range(range))
        } else if date_starts(tokens, pos) {
            PointInTime::grammar(tokens, pos).map(
                |point: PointInTime| TimeExpression::Specific(point),
            )
        } else {
            match PointInTime::grammar(tokens, pos) {
                Outcome::Done { value, end } => Outcome::Done {
                    value: TimeExpression::Specific(value),
                    end,
                },
                Outcome::Failed { .. } => Duration::grammar(tokens, pos).map(
                    |duration: Duration| TimeExpression::Duration(duration),
                ),
            }
        }
    }

    proof fn yields_within(tokens: Seq<Token>, pos: int) {
        TimeRange::yields_within(tokens, pos);
        PointInTime::yields_within(tokens, pos);
        Duration::yields_within(tokens, pos);
    }

    fn parse(input: &mut Cursor<'_>) -> (result: Result<TimeExpression, ParseError>) {
        let word = input.peek_word_at(0);
        if word.is_none() && !input.peek_int_at(0) {
            return Err(ParseError { position: input.pos, expected: Expected::NumberOrKeyword });
        }
        if word == Some(Word::From) {
            let range = TimeRange::parse(input)?;
            return Ok(TimeExpression::Range(range));
        }
        if input.peek_int_at(0) && input.peek_punct_at(1, '/') {
            let point = PointInTime::parse(input)?;
            return Ok(TimeExpression::Specific(point));
        }
        let mut trial = input.fork();
        match PointInTime::parse(&mut trial) {
            Ok(point) => {
                *input = trial;
                Ok(TimeExpression::Specific(point))
            },
            Err(_) => {
                let duration = Duration::parse(input)?;
                Ok(TimeExpression::Duration(duration))
            },
        }
    }
}

impl Canonical for TimeExpression {
    open spec fn legible(self) -> bool {
        match self {
            TimeExpression::Specific(point) => point.legible(),
            TimeExpression::Range(range) => range.legible(),
            TimeExpression::Duration(duration) => duration.legible(),
        }
    }

    open spec fn text(self) -> Seq<char> {
        match self {
            TimeExpression::Specific(point) => point.text(),
            TimeExpression::Range(range) => range.text(),
            TimeExpression::Duration(duration) => duration.text(),
        }
    }

    open spec fn tokens(self) -> Seq<Token> {
        match self {
            TimeExpression::Specific(point) => point.tokens(),
            TimeExpression::Range(range) => range.tokens(),
            TimeExpression::Duration(duration) => duration.tokens(),
        }
    }

    fn to_tokens(&self) -> (r: Vec<Token>) {
        match self {
            TimeExpression::Specific(point) => point.to_tokens(),
            TimeExpression::Range(range) => range.to_tokens(),
            TimeExpression::Duration(duration) => duration.to_tokens(),
        }
    }

    proof fn reads_back(self, tokens: Seq<Token>, pos: int) {
        match self {
            TimeExpression::Specific(point) => {
                lemma_point_starts(point);
                lemma_holds_at(tokens, pos, self.tokens(), 0);
                point.reads_back(tokens, pos);
            },
            TimeExpression::Range(range) => {
                lemma_holds_at(tokens, pos, self.tokens(), 0);
                range.reads_back(tokens, pos);
            },
            TimeExpression::Duration(duration) => {
                lemma_nonzero_has_items(duration);
                lemma_items_start_with_number(duration, 0);
                lemma_holds_at(tokens, pos, self.tokens(), 0);
                lemma_holds_at(tokens, pos, self.tokens(), 1);
                duration.reads_back(tokens, pos);
            },
        }
    }
}

impl TimeExpression {
    /// The canonical text.
    pub fn to_string(&self) -> (r: String)
        ensures
            r@ == self.text(),
    {
        match self {
            TimeExpression::Specific(point) => point.to_string(),
            TimeExpression::Range(range) => range.to_string(),
            TimeExpression::Duration(duration) => duration.to_string(),
        }
    }
}

impl core::str::FromStr for TimeExpression {
    type Err = ParseError;

    fn from_str(text: &str) -> (result: Result<TimeExpression, ParseError>)
        ensures
            result == read::<TimeExpression>(text@),
            result matches Ok(value) ==> value.wf(),
    {
        parse_str(text)
    }
}

/// The canonical tokens of a point in time start with a number and then
/// `/` or a word, or with a word that is not `from`.
pub proof fn lemma_point_starts(point: PointInTime)
    requires
        point.legible(),
    ensures
        point.tokens().len() > 0,
        point.tokens()[0] is Int ==> point.tokens().len() > 1 && (point.tokens()[1] is Ident
            || point.tokens()[1] == Token::Punct('/')),
        point.tokens()[0] is Int || (point.tokens()[0] is Ident && point.tokens()[0]
            != Token::Ident(Word::From)),
        point is Absolute <==> point.tokens()[0] is Int && point.tokens()[1] == Token::Punct('/'),
{
    match point {
        PointInTime::Absolute(time) => {
            lemma_absolute_starts(time);
        },
        PointInTime::Relative(time) => {
            lemma_relative_starts(time);
        },
    }
}

} // verus!
