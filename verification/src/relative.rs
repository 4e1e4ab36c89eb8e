//! Points in time that are given relative to another: by a name, by the
//! next or last of a unit, or by a duration and a direction.

use crate::absolute::AbsoluteTime;
use crate::absolute::lemma_absolute_starts;
use crate::canonical::{holds, joined, lemma_holds_at, lemma_holds_parts, Canonical};
use crate::cursor::Cursor;
use crate::duration::{
    lemma_duration_reads_back, lemma_items_start_with_number, lemma_nonzero_has_items, Duration,
};
use crate::error::{Expected, ParseError};
use crate::fields::RelativeTimeUnit;
use crate::parse::{identifier, parse_str, read, take_identifier, Outcome, Parse};
use crate::token::{int_at, word_at, Token, Word};
use vstd::prelude::*;
use vstd::string::StringExecFns;

verus! {

/// A point in time that has a name.
#[derive(Copy, Clone, Debug, PartialEq, Eq, Structural, Ord, Hash)]
pub enum NamedRelativeTime {
    Now,
    Today,
    Tomorrow,
    Yesterday,
    DayAfterTomorrow,
    DayBeforeYesterday,
}

/// Where a duration is counted from, and which way.
#[derive(Copy, Clone, Debug, PartialEq, Eq, Structural, Ord, Hash)]
pub enum TimeDirection {
    /// `after 18/7/2025 at 3:22 PM`
    AfterAbsolute(AbsoluteTime),
    /// `before 18/7/2025 at 3:22 PM`
    BeforeAbsolute(AbsoluteTime),
    /// `after tomorrow`
    AfterNamed(NamedRelativeTime),
    /// `before yesterday`
    BeforeNamed(NamedRelativeTime),
    /// `before next tuesday`
    BeforeNext(RelativeTimeUnit),
    /// `before last week`
    BeforeLast(RelativeTimeUnit),
    /// `after next thursday`
    AfterNext(RelativeTimeUnit),
    /// `after last month`
    AfterLast(RelativeTimeUnit),
    /// `ago`
    Ago,
    /// `from now`
    FromNow,
}

/// A point in time that is given relative to another.
#[derive(Copy, Clone, Debug, PartialEq, Eq, Structural, Ord, Hash)]
pub enum RelativeTime {
    /// `3 hours before 18/9/2024 at 4:32 PM`, `5 days ago`
    Directional { duration: Duration, dir: TimeDirection },
    /// `now`, `the day after tomorrow`
    Named(NamedRelativeTime),
    /// `next wednesday`
    Next(RelativeTimeUnit),
    /// `last month`
    Last(RelativeTimeUnit),
}

/// The fixed point that an anchored direction counts from.
#[derive(Copy, Clone, Debug, PartialEq, Eq, Structural, Hash)]
pub enum Anchor {
    Absolute(AbsoluteTime),
    Named(NamedRelativeTime),
    Next(RelativeTimeUnit),
    Last(RelativeTimeUnit),
}

impl Parse for NamedRelativeTime {
    open spec fn wf(self) -> bool {
        true
    }

    /// One word that names a time by itself, or the idiom of three words,
    /// which `the` may precede.
    open spec fn grammar(tokens: Seq<Token>, pos: int) -> Outcome<NamedRelativeTime> {
        identifier(tokens, pos).and_then(
            |first: Word, e1: int|
                match NamedRelativeTime::named(first) {
                    Some(named) => Outcome::Done { value: named, end: e1 },
                    None => {
                        let start = NamedRelativeTime::idiom_start(tokens, pos, first);
                        identifier(tokens, start + 1).and_then(
                            |second: Word, e2: int|
                                identifier(tokens, start + 2).and_then(
                                    |third: Word, e3: int|
                                        match NamedRelativeTime::idiom(
                                            word_at(tokens, start)->0,
                                            second,
                                            third,
                                        ) {
                                            Ok(named) => Outcome::Done { value: named, end: e3 },
                                            Err((place, expected)) => Outcome::Failed {
                                                at: start + place,
                                                expected,
                                            },
                                        },
                                ),
                        )
                    },
                },
        )
    }

    proof fn yields_within(tokens: Seq<Token>, pos: int) {
    }

    fn parse(input: &mut Cursor<'_>) -> (result: Result<NamedRelativeTime, ParseError>) {
        let mut cursor = input.fork();
        let mut first = take_identifier(&mut cursor)?;
        if let Some(named) = NamedRelativeTime::from_word(first) {
            *input = cursor;
            return Ok(named);
        }
        let mut start = input.pos;
        if first == Word::The {
            if let Some(word) = cursor.peek_word_at(0) {
                first = word;
                start = cursor.pos;
                cursor.advance();
            }
        }
        let second = take_identifier(&mut cursor)?;
        let third = take_identifier(&mut cursor)?;
        match NamedRelativeTime::from_idiom(first, second, third) {
            Ok(named) => {
                *input = cursor;
                Ok(named)
            },
            Err((place, expected)) => Err(ParseError { position: start + place, expected }),
        }
    }
}

impl Canonical for NamedRelativeTime {
    open spec fn legible(self) -> bool {
        true
    }

    /// The idioms of three words start with `the`.
    open spec fn text(self) -> Seq<char> {
        match self {
            NamedRelativeTime::Now => "now"@,
            NamedRelativeTime::Today => "today"@,
            NamedRelativeTime::Tomorrow => "tomorrow"@,
            NamedRelativeTime::Yesterday => "yesterday"@,
            NamedRelativeTime::DayAfterTomorrow => "the day after tomorrow"@,
            NamedRelativeTime::DayBeforeYesterday => "the day before yesterday"@,
        }
    }

    open spec fn tokens(self) -> Seq<Token> {
        match self {
            NamedRelativeTime::Now => seq![Token::Ident(Word::Now)],
            NamedRelativeTime::Today => seq![Token::Ident(Word::Today)],
            NamedRelativeTime::Tomorrow => seq![Token::Ident(Word::Tomorrow)],
            NamedRelativeTime::Yesterday => seq![Token::Ident(Word::Yesterday)],
            NamedRelativeTime::DayAfterTomorrow => seq![
                Token::Ident(Word::The),
                Token::Ident(Word::Day),
                Token::Ident(Word::After),
                Token::Ident(Word::Tomorrow),
            ],
            NamedRelativeTime::DayBeforeYesterday => seq![
                Token::Ident(Word::The),
                Token::Ident(Word::Day),
                Token::Ident(Word::Before),
                Token::Ident(Word::Yesterday),
            ],
        }
    }

    fn to_tokens(&self) -> (r: Vec<Token>) {
        match self {
            NamedRelativeTime::Now => vec![Token::Ident(Word::Now)],
            NamedRelativeTime::Today => vec![Token::Ident(Word::Today)],
            NamedRelativeTime::Tomorrow => vec![Token::Ident(Word::Tomorrow)],
            NamedRelativeTime::Yesterday => vec![Token::Ident(Word::Yesterday)],
            NamedRelativeTime::DayAfterTomorrow => vec![
                Token::Ident(Word::The),
                Token::Ident(Word::Day),
                Token::Ident(Word::After),
                Token::Ident(Word::Tomorrow),
            ],
            NamedRelativeTime::DayBeforeYesterday => vec![
                Token::Ident(Word::The),
                Token::Ident(Word::Day),
                Token::Ident(Word::Before),
                Token::Ident(Word::Yesterday),
            ],
        }
    }

    proof fn reads_back(self, tokens: Seq<Token>, pos: int) {
        lemma_named_reads_back(self, tokens, pos);
    }
}

impl NamedRelativeTime {
    /// The point in time that `word` names by itself.
    pub open spec fn named(word: Word) -> Option<NamedRelativeTime> {
        match word {
            Word::Now => Some(NamedRelativeTime::Now),
            Word::Today => Some(NamedRelativeTime::Today),
            Word::Tomorrow => Some(NamedRelativeTime::Tomorrow),
            Word::Yesterday => Some(NamedRelativeTime::Yesterday),
            _ => None,
        }
    }

    /// The point in time that `word` names by itself, if it names one.
    pub fn from_word(word: Word) -> (r: Option<NamedRelativeTime>)
        ensures
            r == NamedRelativeTime::named(word),
    {
        match word {
            Word::Now => Some(NamedRelativeTime::Now),
            Word::Today => Some(NamedRelativeTime::Today),
            Word::Tomorrow => Some(NamedRelativeTime::Tomorrow),
            Word::Yesterday => Some(NamedRelativeTime::Yesterday),
            _ => None,
        }
    }

    /// The point in time that three words name together, or which of them is
    /// wrong, by its place among the three, and what was expected there.
    pub open spec fn idiom(first: Word, second: Word, third: Word) -> Result<
        NamedRelativeTime,
        (int, Expected),
    > {
        if first == Word::Day && second == Word::After && third == Word::Tomorrow {
            Ok(NamedRelativeTime::DayAfterTomorrow)
        } else if first == Word::Day && second == Word::Before && third == Word::Yesterday {
            Ok(NamedRelativeTime::DayBeforeYesterday)
        } else if first != Word::Day {
            Err((0, Expected::NamedTime))
        } else if second != Word::Before && second != Word::After {
            Err((1, Expected::BeforeOrAfter))
        } else if third == Word::Tomorrow {
            Err((2, Expected::Yesterday))
        } else {
            Err((2, Expected::Tomorrow))
        }
    }

    /// The point in time that three words name together, or which of them is
    /// wrong, by its place among the three, and what was expected there.
    pub fn from_idiom(first: Word, second: Word, third: Word) -> (r: Result<
        NamedRelativeTime,
        (usize, Expected),
    >)
        ensures
            match NamedRelativeTime::idiom(first, second, third) {
                Ok(named) => r == Ok::<NamedRelativeTime, (usize, Expected)>(named),
                Err((place, expected)) => r matches Err(e) && e.0 == place && e.1 == expected,
            },
    {
        match (first, second, third) {
            (Word::Day, Word::After, Word::Tomorrow) => Ok(NamedRelativeTime::DayAfterTomorrow),
            (Word::Day, Word::Before, Word::Yesterday) => Ok(
                NamedRelativeTime::DayBeforeYesterday,
            ),
            (Word::Day, Word::Before, Word::Tomorrow) => Err((2, Expected::Yesterday)),
            (Word::Day, Word::After, _) => Err((2, Expected::Tomorrow)),
            (Word::Day, Word::Before, _) => Err((2, Expected::Tomorrow)),
            (Word::Day, _, _) => Err((1, Expected::BeforeOrAfter)),
            _ => Err((0, Expected::NamedTime)),
        }
    }

    /// The index of the first of the three words of an idiom, where the
    /// name starts at `pos` with the word `first`, which names nothing by
    /// itself: a leading `the` before another identifier is passed over.
    pub open spec fn idiom_start(tokens: Seq<Token>, pos: int, first: Word) -> int {
        if first == Word::The && word_at(tokens, pos + 1) is Some {
            pos + 1
        } else {
            pos
        }
    }

    /// The canonical text.
    pub fn as_str(&self) -> (r: &'static str)
        ensures
            r@ == self.text(),
    {
        match self {
            NamedRelativeTime::Now => "now",
            NamedRelativeTime::Today => "today",
            NamedRelativeTime::Tomorrow => "tomorrow",
            NamedRelativeTime::Yesterday => "yesterday",
            NamedRelativeTime::DayAfterTomorrow => "the day after tomorrow",
            NamedRelativeTime::DayBeforeYesterday => "the day before yesterday",
        }
    }

    /// The canonical text.
    pub fn to_string(&self) -> (r: String)
        ensures
            r@ == self.text(),
    {
        String::from_str(self.as_str())
    }
}

impl core::str::FromStr for NamedRelativeTime {
    type Err = ParseError;

    fn from_str(text: &str) -> (result: Result<NamedRelativeTime, ParseError>)
        ensures
            result == read::<NamedRelativeTime>(text@),
            result matches Ok(value) ==> value.wf(),
    {
        parse_str(text)
    }
}

impl Parse for TimeDirection {
    open spec fn wf(self) -> bool {
        match self.anchor() {
            Some((_, anchor)) => anchor.wf(),
            None => true,
        }
    }

    /// `after` or `before` with an anchor, `ago`, or `from` with `now`.
    open spec fn grammar(tokens: Seq<Token>, pos: int) -> Outcome<TimeDirection> {
        identifier(tokens, pos).and_then(
            |first: Word, e1: int|
                match first {
                    Word::After => Anchor::grammar(tokens, e1).map(
                        |anchor: Anchor| TimeDirection::anchored(true, anchor),
                    ),
                    Word::Before => Anchor::grammar(tokens, e1).map(
                        |anchor: Anchor| TimeDirection::anchored(false, anchor),
                    ),
                    Word::Ago => Outcome::Done { value: TimeDirection::Ago, end: e1 },
                    Word::From => identifier(tokens, e1).and_then(
                        |second: Word, e2: int|
                            if second == Word::Now {
                                Outcome::Done { value: TimeDirection::FromNow, end: e2 }
                            } else {
                                Outcome::Failed { at: e1, expected: Expected::Now }
                            },
                    ),
                    _ => Outcome::Failed { at: pos, expected: Expected::Direction },
                },
        )
    }

    proof fn yields_within(tokens: Seq<Token>, pos: int) {
        if pos < tokens.len() {
            Anchor::yields_within(tokens, pos + 1);
        }
    }

    fn parse(input: &mut Cursor<'_>) -> (result: Result<TimeDirection, ParseError>) {
        let mut cursor = input.fork();
        let direction = match take_identifier(&mut cursor)? {
            Word::After => {
                let anchor = Anchor::parse(&mut cursor)?;
                TimeDirection::from_anchor(true, anchor)
            },
            Word::Before => {
                let anchor = Anchor::parse(&mut cursor)?;
                TimeDirection::from_anchor(false, anchor)
            },
            Word::Ago => TimeDirection::Ago,
            Word::From => {
                let second_at = cursor.pos;
                if take_identifier(&mut cursor)? != Word::Now {
                    return Err(ParseError { position: second_at, expected: Expected::Now });
                }
                TimeDirection::FromNow
            },
            _ => {
                return Err(ParseError { position: input.pos, expected: Expected::Direction });
            },
        };
        *input = cursor;
        Ok(direction)
    }
}

impl Canonical for TimeDirection {
    open spec fn legible(self) -> bool {
        true
    }

    open spec fn text(self) -> Seq<char> {
        match self.anchor() {
            Some((true, anchor)) => "after "@ + anchor.text(),
            Some((false, anchor)) => "before "@ + anchor.text(),
            None => if self is Ago {
                "ago"@
            } else {
                "from now"@
            },
        }
    }

    open spec fn tokens(self) -> Seq<Token> {
        match self.anchor() {
            Some((true, anchor)) => seq![Token::Ident(Word::After)] + anchor.tokens(),
            Some((false, anchor)) => seq![Token::Ident(Word::Before)] + anchor.tokens(),
            None => if self is Ago {
                seq![Token::Ident(Word::Ago)]
            } else {
                seq![Token::Ident(Word::From), Token::Ident(Word::Now)]
            },
        }
    }

    fn to_tokens(&self) -> (r: Vec<Token>) {
        match self.to_anchor() {
            Some((true, anchor)) => joined(vec![Token::Ident(Word::After)], anchor.to_tokens()),
            Some((false, anchor)) => joined(vec![Token::Ident(Word::Before)], anchor.to_tokens()),
            None => match self {
                TimeDirection::Ago => vec![Token::Ident(Word::Ago)],
                _ => vec![Token::Ident(Word::From), Token::Ident(Word::Now)],
            },
        }
    }

    proof fn reads_back(self, tokens: Seq<Token>, pos: int) {
        lemma_holds_at(tokens, pos, self.tokens(), 0);
        match self.anchor() {
            Some((after, anchor)) => {
                let head = if after {
                    seq![Token::Ident(Word::After)]
                } else {
                    seq![Token::Ident(Word::Before)]
                };
                assert(self.tokens() == head + anchor.tokens());
                lemma_holds_parts(tokens, pos, head, anchor.tokens());
                anchor.reads_back(tokens, pos + 1);
                assert(TimeDirection::anchored(after, anchor) == self);
            },
            None => {
                if self is FromNow {
                    lemma_holds_at(tokens, pos, self.tokens(), 1);
                }
            },
        }
    }
}

impl TimeDirection {
    /// The direction that counts from `anchor`, forwards if `after` holds
    /// and backwards if not.
    pub open spec fn anchored(after: bool, anchor: Anchor) -> TimeDirection {
        match anchor {
            Anchor::Absolute(time) => if after {
                TimeDirection::AfterAbsolute(time)
            } else {
                TimeDirection::BeforeAbsolute(time)
            },
            Anchor::Named(named) => if after {
                TimeDirection::AfterNamed(named)
            } else {
                TimeDirection::BeforeNamed(named)
            },
            Anchor::Next(unit) => if after {
                TimeDirection::AfterNext(unit)
            } else {
                TimeDirection::BeforeNext(unit)
            },
            Anchor::Last(unit) => if after {
                TimeDirection::AfterLast(unit)
            } else {
                TimeDirection::BeforeLast(unit)
            },
        }
    }

    /// Whether the direction points forwards, and the anchor it counts
    /// from; `None` for the two directions that count from now.
    pub open spec fn anchor(self) -> Option<(bool, Anchor)> {
        match self {
            TimeDirection::AfterAbsolute(time) => Some((true, Anchor::Absolute(time))),
            TimeDirection::BeforeAbsolute(time) => Some((false, Anchor::Absolute(time))),
            TimeDirection::AfterNamed(named) => Some((true, Anchor::Named(named))),
            TimeDirection::BeforeNamed(named) => Some((false, Anchor::Named(named))),
            TimeDirection::AfterNext(unit) => Some((true, Anchor::Next(unit))),
            TimeDirection::BeforeNext(unit) => Some((false, Anchor::Next(unit))),
            TimeDirection::AfterLast(unit) => Some((true, Anchor::Last(unit))),
            TimeDirection::BeforeLast(unit) => Some((false, Anchor::Last(unit))),
            TimeDirection::Ago => None,
            TimeDirection::FromNow => None,
        }
    }

    /// The direction that counts from `anchor`, forwards if `after` holds
    /// and backwards if not.
    pub fn from_anchor(after: bool, anchor: Anchor) -> (r: TimeDirection)
        ensures
            r == TimeDirection::anchored(after, anchor),
            r.anchor() == Some((after, anchor)),
    {
        match anchor {
            Anchor::Absolute(time) => if after {
                TimeDirection::AfterAbsolute(time)
            } else {
                TimeDirection::BeforeAbsolute(time)
            },
            Anchor::Named(named) => if after {
                TimeDirection::AfterNamed(named)
            } else {
                TimeDirection::BeforeNamed(named)
            },
            Anchor::Next(unit) => if after {
                TimeDirection::AfterNext(unit)
            } else {
                TimeDirection::BeforeNext(unit)
            },
            Anchor::Last(unit) => if after {
                TimeDirection::AfterLast(unit)
            } else {
                TimeDirection::BeforeLast(unit)
            },
        }
    }

    /// Whether the direction points forwards, and the anchor it counts
    /// from; `None` for the two directions that count from now.
    pub fn to_anchor(&self) -> (r: Option<(bool, Anchor)>)
        ensures
            r == self.anchor(),
    {
        match *self {
            TimeDirection::AfterAbsolute(time) => Some((true, Anchor::Absolute(time))),
            TimeDirection::BeforeAbsolute(time) => Some((false, Anchor::Absolute(time))),
            TimeDirection::AfterNamed(named) => Some((true, Anchor::Named(named))),
            TimeDirection::BeforeNamed(named) => Some((false, Anchor::Named(named))),
            TimeDirection::AfterNext(unit) => Some((true, Anchor::Next(unit))),
            TimeDirection::BeforeNext(unit) => Some((false, Anchor::Next(unit))),
            TimeDirection::AfterLast(unit) => Some((true, Anchor::Last(unit))),
            TimeDirection::BeforeLast(unit) => Some((false, Anchor::Last(unit))),
            TimeDirection::Ago => None,
            TimeDirection::FromNow => None,
        }
    }

    /// The canonical text.
    pub fn to_string(&self) -> (r: String)
        ensures
            r@ == self.text(),
    {
        match self.to_anchor() {
            Some((true, anchor)) => {
                let rest = anchor.to_string();
                String::from_str("after ").concat(rest.as_str())
            },
            Some((false, anchor)) => {
                let rest = anchor.to_string();
                String::from_str("before ").concat(rest.as_str())
            },
            None => match self {
                TimeDirection::Ago => String::from_str("ago"),
                _ => String::from_str("from now"),
            },
        }
    }
}

impl core::str::FromStr for TimeDirection {
    type Err = ParseError;

    fn from_str(text: &str) -> (result: Result<TimeDirection, ParseError>)
        ensures
            result == read::<TimeDirection>(text@),
            result matches Ok(value) ==> value.wf(),
    {
        parse_str(text)
    }
}

impl Parse for RelativeTime {
    open spec fn wf(self) -> bool {
        match self {
            RelativeTime::Directional { duration, dir } => dir.wf(),
            _ => true,
        }
    }

    /// By the first word: `next` or `last` with a unit, a named time, or
    /// else a duration with a direction.
    open spec fn grammar(tokens: Seq<Token>, pos: int) -> Outcome<RelativeTime> {
        match word_at(tokens, pos) {
            Some(Word::Next) => RelativeTimeUnit::grammar(tokens, pos + 1).map(
                |unit: RelativeTimeUnit| RelativeTime::Next(unit),
            ),
            Some(Word::Last) => RelativeTimeUnit::grammar(tokens, pos + 1).map(
                |unit: RelativeTimeUnit| RelativeTime::Last(unit),
            ),
            Some(word) if RelativeTime::starts_name(word) => NamedRelativeTime::grammar(
                tokens,
                pos,
            ).map(|named: NamedRelativeTime| RelativeTime::Named(named)),
            _ => Duration::grammar(tokens, pos).and_then(
                |duration: Duration, e1: int|
                    TimeDirection::grammar(tokens, e1).map(
                        |dir: TimeDirection| RelativeTime::Directional { duration, dir },
                    ),
            ),
        }
    }

    proof fn yields_within(tokens: Seq<Token>, pos: int) {
        NamedRelativeTime::yields_within(tokens, pos);
        Duration::yields_within(tokens, pos);
        if let Outcome::Done { value, end } = Duration::grammar(tokens, pos) {
            TimeDirection::yields_within(tokens, end);
        }
    }

    fn parse(input: &mut Cursor<'_>) -> (result: Result<RelativeTime, ParseError>) {
        let mut cursor = input.fork();
        match cursor.peek_word_at(0) {
            Some(Word::Next) => {
                cursor.advance();
                let unit = RelativeTimeUnit::parse(&mut cursor)?;
                *input = cursor;
                Ok(RelativeTime::Next(unit))
            },
            Some(Word::Last) => {
                cursor.advance();
                let unit = RelativeTimeUnit::parse(&mut cursor)?;
                *input = cursor;
                Ok(RelativeTime::Last(unit))
            },
            Some(Word::Day)
            | Some(Word::Now)
            | Some(Word::Today)
            | Some(Word::Tomorrow)
            | Some(Word::Yesterday)
            | Some(Word::The) => {
                let named = NamedRelativeTime::parse(input)?;
                Ok(RelativeTime::Named(named))
            },
            _ => {
                let duration = Duration::parse(&mut cursor)?;
                let dir = TimeDirection::parse(&mut cursor)?;
                *input = cursor;
                Ok(RelativeTime::Directional { duration, dir })
            },
        }
    }
}

impl Canonical for RelativeTime {
    open spec fn legible(self) -> bool {
        match self {
            RelativeTime::Directional { duration, dir } => duration.legible(),
            _ => true,
        }
    }

    open spec fn text(self) -> Seq<char> {
        match self {
            RelativeTime::Directional { duration, dir } => duration.text() + " "@ + dir.text(),
            RelativeTime::Named(named) => named.text(),
            RelativeTime::Next(unit) => "next "@ + unit.text(),
            RelativeTime::Last(unit) => "last "@ + unit.text(),
        }
    }

    open spec fn tokens(self) -> Seq<Token> {
        match self {
            RelativeTime::Directional { duration, dir } => duration.tokens() + dir.tokens(),
            RelativeTime::Named(named) => named.tokens(),
            RelativeTime::Next(unit) => seq![Token::Ident(Word::Next), Token::Ident(unit.word())],
            RelativeTime::Last(unit) => seq![Token::Ident(Word::Last), Token::Ident(unit.word())],
        }
    }

    fn to_tokens(&self) -> (r: Vec<Token>) {
        match self {
            RelativeTime::Directional { duration, dir } => joined(
                duration.to_tokens(),
                dir.to_tokens(),
            ),
            RelativeTime::Named(named) => named.to_tokens(),
            RelativeTime::Next(unit) => vec![
                Token::Ident(Word::Next),
                Token::Ident(unit.to_word()),
            ],
            RelativeTime::Last(unit) => vec![
                Token::Ident(Word::Last),
                Token::Ident(unit.to_word()),
            ],
        }
    }

    proof fn reads_back(self, tokens: Seq<Token>, pos: int) {
        match self {
            RelativeTime::Directional { duration, dir } => {
                lemma_holds_parts(tokens, pos, duration.tokens(), dir.tokens());
                lemma_nonzero_has_items(duration);
                lemma_items_start_with_number(duration, 0);
                lemma_holds_at(tokens, pos, duration.tokens(), 0);
                lemma_direction_starts(dir);
                lemma_holds_at(tokens, pos + duration.tokens().len(), dir.tokens(), 0);
                lemma_duration_reads_back(duration, tokens, pos);
                dir.reads_back(tokens, pos + duration.tokens().len());
            },
            RelativeTime::Named(named) => {
                lemma_holds_at(tokens, pos, self.tokens(), 0);
                lemma_named_reads_back(named, tokens, pos);
            },
            _ => {
                lemma_holds_at(tokens, pos, self.tokens(), 0);
                lemma_holds_at(tokens, pos, self.tokens(), 1);
            },
        }
    }
}

impl RelativeTime {
    /// Whether `word` starts a named relative time.
    pub open spec fn starts_name(word: Word) -> bool {
        word == Word::Day || word == Word::Now || word == Word::Today || word == Word::Tomorrow
            || word == Word::Yesterday || word == Word::The
    }

    /// The canonical text.
    pub fn to_string(&self) -> (r: String)
        ensures
            r@ == self.text(),
    {
        match self {
            RelativeTime::Directional { duration, dir } => {
                let direction = dir.to_string();
                duration.to_string().concat(" ").concat(direction.as_str())
            },
            RelativeTime::Named(named) => named.to_string(),
            RelativeTime::Next(unit) => String::from_str("next ").concat(unit.as_str()),
            RelativeTime::Last(unit) => String::from_str("last ").concat(unit.as_str()),
        }
    }
}

impl core::str::FromStr for RelativeTime {
    type Err = ParseError;

    fn from_str(text: &str) -> (result: Result<RelativeTime, ParseError>)
        ensures
            result == read::<RelativeTime>(text@),
            result matches Ok(value) ==> value.wf(),
    {
        parse_str(text)
    }
}

impl Parse for Anchor {
    open spec fn wf(self) -> bool {
        match self {
            Anchor::Absolute(time) => time.wf(),
            _ => true,
        }
    }

    /// An absolute time where an integer literal comes first, else `next`
    /// or `last` with a unit, else a named time.
    open spec fn grammar(tokens: Seq<Token>, pos: int) -> Outcome<Anchor> {
        if int_at(tokens, pos) {
            AbsoluteTime::grammar(tokens, pos).map(|time: AbsoluteTime| Anchor::Absolute(time))
        } else {
            match word_at(tokens, pos) {
                None => Outcome::Failed { at: pos, expected: Expected::Identifier },
                Some(Word::Next) => RelativeTimeUnit::grammar(tokens, pos + 1).map(
                    |unit: RelativeTimeUnit| Anchor::Next(unit),
                ),
                Some(Word::Last) => RelativeTimeUnit::grammar(tokens, pos + 1).map(
                    |unit: RelativeTimeUnit| Anchor::Last(unit),
                ),
                Some(_) => NamedRelativeTime::grammar(tokens, pos).map(
                    |named: NamedRelativeTime| Anchor::Named(named),
                ),
            }
        }
    }

    proof fn yields_within(tokens: Seq<Token>, pos: int) {
        AbsoluteTime::yields_within(tokens, pos);
        NamedRelativeTime::yields_within(tokens, pos);
    }

    fn parse(input: &mut Cursor<'_>) -> (result: Result<Anchor, ParseError>) {
        if input.peek_int_at(0) {
            let time = AbsoluteTime::parse(input)?;
            return Ok(Anchor::Absolute(time));
        }
        let mut cursor = input.fork();
        match take_identifier(&mut cursor)? {
            Word::Next => {
                let unit = RelativeTimeUnit::parse(&mut cursor)?;
                *input = cursor;
                Ok(Anchor::Next(unit))
            },
            Word::Last => {
                let unit = RelativeTimeUnit::parse(&mut cursor)?;
                *input = cursor;
                Ok(Anchor::Last(unit))
            },
            _ => {
                let named = NamedRelativeTime::parse(input)?;
                Ok(Anchor::Named(named))
            },
        }
    }
}

impl Canonical for Anchor {
    open spec fn legible(self) -> bool {
        true
    }

    open spec fn text(self) -> Seq<char> {
        match self {
            Anchor::Absolute(time) => time.text(),
            Anchor::Named(named) => named.text(),
            Anchor::Next(unit) => "next "@ + unit.text(),
            Anchor::Last(unit) => "last "@ + unit.text(),
        }
    }

    open spec fn tokens(self) -> Seq<Token> {
        match self {
            Anchor::Absolute(time) => time.tokens(),
            Anchor::Named(named) => named.tokens(),
            Anchor::Next(unit) => seq![Token::Ident(Word::Next), Token::Ident(unit.word())],
            Anchor::Last(unit) => seq![Token::Ident(Word::Last), Token::Ident(unit.word())],
        }
    }

    fn to_tokens(&self) -> (r: Vec<Token>) {
        match self {
            Anchor::Absolute(time) => time.to_tokens(),
            Anchor::Named(named) => named.to_tokens(),
            Anchor::Next(unit) => vec![Token::Ident(Word::Next), Token::Ident(unit.to_word())],
            Anchor::Last(unit) => vec![Token::Ident(Word::Last), Token::Ident(unit.to_word())],
        }
    }

    proof fn reads_back(self, tokens: Seq<Token>, pos: int) {
        lemma_holds_at(tokens, pos, self.tokens(), 0);
        match self {
            Anchor::Absolute(time) => {
                lemma_absolute_starts(time);
                time.reads_back(tokens, pos);
            },
            Anchor::Named(named) => {
                lemma_named_reads_back(named, tokens, pos);
            },
            _ => {
                lemma_holds_at(tokens, pos, self.tokens(), 1);
            },
        }
    }
}

impl Anchor {
    /// The canonical text.
    pub fn to_string(&self) -> (r: String)
        ensures
            r@ == self.text(),
    {
        match self {
            Anchor::Absolute(time) => time.to_string(),
            Anchor::Named(named) => named.to_string(),
            Anchor::Next(unit) => String::from_str("next ").concat(unit.as_str()),
            Anchor::Last(unit) => String::from_str("last ").concat(unit.as_str()),
        }
    }
}

/// A named time is read back from its canonical tokens, whatever follows
/// them.
pub proof fn lemma_named_reads_back(named: NamedRelativeTime, tokens: Seq<Token>, pos: int)
    requires
        holds(tokens, pos, named.tokens()),
    ensures
        NamedRelativeTime::grammar(tokens, pos) == (Outcome::Done {
            value: named,
            end: pos + named.tokens().len(),
        }),
{
    lemma_holds_at(tokens, pos, named.tokens(), 0);
    if named is DayAfterTomorrow || named is DayBeforeYesterday {
        lemma_holds_at(tokens, pos, named.tokens(), 1);
        lemma_holds_at(tokens, pos, named.tokens(), 2);
        lemma_holds_at(tokens, pos, named.tokens(), 3);
    }
}

/// The canonical tokens of a direction start with one of the four words
/// that name a direction.
pub proof fn lemma_direction_starts(dir: TimeDirection)
    ensures
        dir.tokens().len() > 0,
        dir.tokens()[0] == Token::Ident(Word::After) || dir.tokens()[0] == Token::Ident(
            Word::Before,
        ) || dir.tokens()[0] == Token::Ident(Word::Ago) || dir.tokens()[0] == Token::Ident(
            Word::From,
        ),
{
}

/// The canonical tokens of a relative time start with a number and a word,
/// or with a word that is not `from`.
pub proof fn lemma_relative_starts(time: RelativeTime)
    requires
        time.legible(),
    ensures
        time.tokens().len() > 0,
        time.tokens()[0] is Int ==> time.tokens().len() > 1 && time.tokens()[1] is Ident,
        time.tokens()[0] is Int || (time.tokens()[0] is Ident && time.tokens()[0]
            != Token::Ident(Word::From)),
{
    match time {
        RelativeTime::Directional { duration, dir } => {
            lemma_nonzero_has_items(duration);
            lemma_items_start_with_number(duration, 0);
            assert(time.tokens()[0] == duration.tokens()[0]);
            assert(time.tokens()[1] == duration.tokens()[1]);
        },
        _ => {},
    }
}

} // verus!
