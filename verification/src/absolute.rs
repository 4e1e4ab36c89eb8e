//! Fixed points in time: a date, a time of day, and a date with a time.

use crate::canonical::{holds, joined, lemma_holds_at, lemma_holds_parts, Canonical};
use crate::cursor::Cursor;
use crate::error::{Expected, ParseError};
use crate::fields::{AmPm, DayOfMonth, Hour, Minute, Month, Year};
use crate::parse::{
    integer_up_to, parse_str, punct, read, take_integer, take_punct, Outcome, Parse,
};
use crate::text::{decimal, decimal_string};
use crate::token::{int_at, punct_at, word_at, Token, Word};
use vstd::prelude::*;
use vstd::string::StringExecFns;

verus! {

/// A date, written day first: `22/4/1991`.
#[derive(Copy, Clone, Debug, PartialEq, Eq, Structural, Ord, Hash)]
pub struct Date(pub Month, pub DayOfMonth, pub Year);

/// A time of day: `13:07` or `5:07 PM`.
#[derive(Copy, Clone, Debug, PartialEq, Eq, Structural, Ord, Hash)]
pub struct Time(pub Hour, pub Minute);

/// A date with a time of day: `22/4/1991 at 5:25 PM`.
#[derive(Copy, Clone, Debug, PartialEq, Eq, Structural, Ord, Hash)]
pub struct DateTime(pub Date, pub Time);

/// A fixed point in time.
#[derive(Copy, Clone, Debug, PartialEq, Eq, Structural, Ord, Hash)]
pub enum AbsoluteTime {
    Date(Date),
    DateTime(DateTime),
}

impl Parse for Date {
    /// The day lies from 1 to 31 and the number of the month from 1 to 12.
    open spec fn wf(self) -> bool {
        self.1.wf() && 1 <= self.0.number() <= 12
    }

    /// Day, `/`, month, `/`, year. The three are checked one by one: no day
    /// is held against the length of its month.
    open spec fn grammar(tokens: Seq<Token>, pos: int) -> Outcome<Date> {
        DayOfMonth::grammar(tokens, pos).and_then(
            |day: DayOfMonth, e1: int|
                punct(tokens, e1, '/', Expected::Slash).and_then(
                    |u1: (), e2: int|
                        Month::grammar(tokens, e2).and_then(
                            |month: Month, e3: int|
                                punct(tokens, e3, '/', Expected::Slash).and_then(
                                    |u2: (), e4: int|
                                        Year::grammar(tokens, e4).map(
                                            |year: Year| Date(month, day, year),
                                        ),
                                ),
                        ),
                ),
        )
    }

    proof fn yields_within(tokens: Seq<Token>, pos: int) {
    }

    fn parse(input: &mut Cursor<'_>) -> (result: Result<Date, ParseError>) {
        let mut cursor = input.fork();
        let day = DayOfMonth::parse(&mut cursor)?;
        take_punct(&mut cursor, '/', Expected::Slash)?;
        let month = Month::parse(&mut cursor)?;
        take_punct(&mut cursor, '/', Expected::Slash)?;
        let year = Year::parse(&mut cursor)?;
        *input = cursor;
        Ok(Date(month, day, year))
    }
}

impl Canonical for Date {
    open spec fn legible(self) -> bool {
        true
    }

    /// Day, month and year, with `/` between them.
    open spec fn text(self) -> Seq<char> {
        self.1.text() + "/"@ + self.0.text() + "/"@ + self.2.text()
    }

    open spec fn tokens(self) -> Seq<Token> {
        seq![
            Token::Int(self.1.0 as u64),
            Token::Punct('/'),
            Token::Int(self.0.number() as u64),
            Token::Punct('/'),
            Token::Int(self.2.0 as u64),
        ]
    }

    fn to_tokens(&self) -> (r: Vec<Token>) {
        vec![
            Token::Int(self.1.0 as u64),
            Token::Punct('/'),
            Token::Int(self.0.to_number() as u64),
            Token::Punct('/'),
            Token::Int(self.2.0 as u64),
        ]
    }

    proof fn reads_back(self, tokens: Seq<Token>, pos: int) {
        lemma_date_reads_back(self, tokens, pos);
    }
}

impl Date {
    /// The canonical text.
    pub fn to_string(&self) -> (r: String)
        ensures
            r@ == self.text(),
    {
        let month = self.0.to_string();
        let year = self.2.to_string();
        self.1.to_string().concat("/").concat(month.as_str()).concat("/").concat(year.as_str())
    }
}

impl Parse for Time {
    open spec fn wf(self) -> bool {
        self.0.wf() && self.1.wf()
    }

    /// A number, `:`, the minute, and after it a half of the day if one
    /// follows: the number is then an hour on the 12-hour clock, else on the
    /// 24-hour clock, and is checked last.
    open spec fn grammar(tokens: Seq<Token>, pos: int) -> Outcome<Time> {
        integer_up_to(tokens, pos, 255).and_then(
            |n: u64, e1: int|
                punct(tokens, e1, ':', Expected::Colon).and_then(
                    |u: (), e2: int|
                        Minute::grammar(tokens, e2).and_then(
                            |minute: Minute, e3: int|
                                {
                                    let half = AmPm::grammar(tokens, e3);
                                    match Hour::on_clock(n, half.value()) {
                                        Ok(hour) => Outcome::Done {
                                            value: Time(hour, minute),
                                            end: half.end_or(e3),
                                        },
                                        Err(expected) => Outcome::Failed { at: pos, expected },
                                    }
                                },
                        ),
                ),
        )
    }

    proof fn yields_within(tokens: Seq<Token>, pos: int) {
    }

    fn parse(input: &mut Cursor<'_>) -> (result: Result<Time, ParseError>) {
        let mut cursor = input.fork();
        let n = take_integer(&mut cursor, 255)?;
        take_punct(&mut cursor, ':', Expected::Colon)?;
        let minute = Minute::parse(&mut cursor)?;
        let half = AmPm::parse(&mut cursor).ok();
        match Hour::check(n, half) {
            Ok(hour) => {
                *input = cursor;
                Ok(Time(hour, minute))
            },
            Err(expected) => Err(ParseError { position: input.pos, expected }),
        }
    }
}

impl Canonical for Time {
    open spec fn legible(self) -> bool {
        true
    }

    /// Hour and minute with `:` between them, and on the
    /// 12-hour clock the half of the day after a space.
    open spec fn text(self) -> Seq<char> {
        match self.0 {
            Hour::Hour12(hour, half) => decimal(hour as nat) + ":"@ + self.1.text() + " "@
                + half.text(),
            Hour::Hour24(hour) => decimal(hour as nat) + ":"@ + self.1.text(),
        }
    }

    open spec fn tokens(self) -> Seq<Token> {
        match self.0 {
            Hour::Hour12(hour, half) => seq![
                Token::Int(hour as u64),
                Token::Punct(':'),
                Token::Int(self.1.0 as u64),
                Token::Ident(half.word()),
            ],
            Hour::Hour24(hour) => seq![
                Token::Int(hour as u64),
                Token::Punct(':'),
                Token::Int(self.1.0 as u64),
            ],
        }
    }

    fn to_tokens(&self) -> (r: Vec<Token>) {
        match self.0 {
            Hour::Hour12(hour, half) => vec![
                Token::Int(hour as u64),
                Token::Punct(':'),
                Token::Int(self.1.0 as u64),
                Token::Ident(half.to_word()),
            ],
            Hour::Hour24(hour) => vec![
                Token::Int(hour as u64),
                Token::Punct(':'),
                Token::Int(self.1.0 as u64),
            ],
        }
    }

    proof fn reads_back(self, tokens: Seq<Token>, pos: int) {
        lemma_time_reads_back(self, tokens, pos);
    }
}

impl Time {
    /// The canonical text.
    pub fn to_string(&self) -> (r: String)
        ensures
            r@ == self.text(),
    {
        let minute = self.1.to_string();
        match self.0 {
            Hour::Hour12(hour, half) => {
                let clock = decimal_string(hour as u64).concat(":").concat(minute.as_str());
                clock.concat(" ").concat(half.as_str())
            },
            Hour::Hour24(hour) => decimal_string(hour as u64).concat(":").concat(minute.as_str()),
        }
    }
}

impl core::str::FromStr for Time {
    type Err = ParseError;

    fn from_str(text: &str) -> (result: Result<Time, ParseError>)
        ensures
            result == read::<Time>(text@),
            result matches Ok(value) ==> value.wf(),
    {
        parse_str(text)
    }
}

impl Parse for DateTime {
    open spec fn wf(self) -> bool {
        self.0.wf() && self.1.wf()
    }

    /// A date, `at` if an identifier follows the date, and a time.
    open spec fn grammar(tokens: Seq<Token>, pos: int) -> Outcome<DateTime> {
        Date::grammar(tokens, pos).and_then(
            |date: Date, e1: int|
                DateTime::filler(tokens, e1).and_then(
                    |u: (), e2: int|
                        Time::grammar(tokens, e2).map(|time: Time| DateTime(date, time)),
                ),
        )
    }

    proof fn yields_within(tokens: Seq<Token>, pos: int) {
    }

    fn parse(input: &mut Cursor<'_>) -> (result: Result<DateTime, ParseError>) {
        let mut cursor = input.fork();
        let date = Date::parse(&mut cursor)?;
        match cursor.peek_word_at(0) {
            Some(Word::At) => cursor.advance(),
            Some(_) => {
                return Err(ParseError { position: cursor.pos, expected: Expected::At });
            },
            None => {},
        }
        let time = Time::parse(&mut cursor)?;
        *input = cursor;
        Ok(DateTime(date, time))
    }
}

impl Canonical for DateTime {
    open spec fn legible(self) -> bool {
        true
    }

    /// The date, `at`, and the time.
    open spec fn text(self) -> Seq<char> {
        self.0.text() + " at "@ + self.1.text()
    }

    open spec fn tokens(self) -> Seq<Token> {
        self.0.tokens() + seq![Token::Ident(Word::At)] + self.1.tokens()
    }

    fn to_tokens(&self) -> (r: Vec<Token>) {
        let mut tokens = self.0.to_tokens();
        tokens.push(Token::Ident(Word::At));
        joined(tokens, self.1.to_tokens())
    }

    proof fn reads_back(self, tokens: Seq<Token>, pos: int) {
        lemma_date_time_reads_back(self, tokens, pos);
    }
}

impl DateTime {
    /// The index at which the time starts, where the date ended at `pos`: an
    /// identifier there has to be `at` and is passed over.
    pub open spec fn filler(tokens: Seq<Token>, pos: int) -> Outcome<()> {
        match word_at(tokens, pos) {
            Some(Word::At) => Outcome::Done { value: (), end: pos + 1 },
            Some(_) => Outcome::Failed { at: pos, expected: Expected::At },
            None => Outcome::Done { value: (), end: pos },
        }
    }

    /// The canonical text.
    pub fn to_string(&self) -> (r: String)
        ensures
            r@ == self.text(),
    {
        let time = self.1.to_string();
        self.0.to_string().concat(" at ").concat(time.as_str())
    }
}

impl core::str::FromStr for DateTime {
    type Err = ParseError;

    fn from_str(text: &str) -> (result: Result<DateTime, ParseError>)
        ensures
            result == read::<DateTime>(text@),
            result matches Ok(value) ==> value.wf(),
    {
        parse_str(text)
    }
}

/// Whether the tokens from index `pos`, right after a date, announce a time:
/// an integer, `:` and an integer, or an identifier, an integer and `:`.
pub open spec fn time_follows(tokens: Seq<Token>, pos: int) -> bool {
    ||| int_at(tokens, pos) && punct_at(tokens, pos + 1, ':') && int_at(tokens, pos + 2)
    ||| word_at(tokens, pos) is Some && int_at(tokens, pos + 1) && punct_at(tokens, pos + 2, ':')
}

impl Parse for AbsoluteTime {
    open spec fn wf(self) -> bool {
        match self {
            AbsoluteTime::Date(date) => date.wf(),
            AbsoluteTime::DateTime(date_time) => date_time.wf(),
        }
    }

    /// A date, taken as the start of a date with a time where the tokens after
    /// it announce a time.
    open spec fn grammar(tokens: Seq<Token>, pos: int) -> Outcome<AbsoluteTime> {
        Date::grammar(tokens, pos).and_then(
            |date: Date, end: int|
                if time_follows(tokens, end) {
                    DateTime::grammar(tokens, pos).map(
                        |date_time: DateTime| AbsoluteTime::DateTime(date_time),
                    )
                } else {
                    Outcome::Done { value: AbsoluteTime::Date(date), end }
                },
        )
    }

    proof fn yields_within(tokens: Seq<Token>, pos: int) {
    }

    fn parse(input: &mut Cursor<'_>) -> (result: Result<AbsoluteTime, ParseError>) {
        let mut trial = input.fork();
        let date = Date::parse(&mut trial)?;
        let clock = trial.peek_int_at(0) && trial.peek_punct_at(1, ':') && trial.peek_int_at(2);
        let filler = trial.peek_word_at(0).is_some() && trial.peek_int_at(1)
            && trial.peek_punct_at(2, ':');
        if clock || filler {
            let date_time = DateTime::parse(input)?;
            Ok(AbsoluteTime::DateTime(date_time))
        } else {
            *input = trial;
            Ok(AbsoluteTime::Date(date))
        }
    }
}

impl Canonical for AbsoluteTime {
    open spec fn legible(self) -> bool {
        true
    }

    open spec fn text(self) -> Seq<char> {
        match self {
            AbsoluteTime::Date(date) => date.text(),
            AbsoluteTime::DateTime(date_time) => date_time.text(),
        }
    }

    open spec fn tokens(self) -> Seq<Token> {
        match self {
            AbsoluteTime::Date(date) => date.tokens(),
            AbsoluteTime::DateTime(date_time) => date_time.tokens(),
        }
    }

    fn to_tokens(&self) -> (r: Vec<Token>) {
        match self {
            AbsoluteTime::Date(date) => date.to_tokens(),
            AbsoluteTime::DateTime(date_time) => date_time.to_tokens(),
        }
    }

    proof fn reads_back(self, tokens: Seq<Token>, pos: int) {
        match self {
            AbsoluteTime::Date(date) => {
                lemma_date_reads_back(date, tokens, pos);
            },
            AbsoluteTime::DateTime(date_time) => {
                lemma_date_time_reads_back(date_time, tokens, pos);
                let rest = seq![Token::Ident(Word::At)] + date_time.1.tokens();
                assert(date_time.tokens() =~= date_time.0.tokens() + rest);
                lemma_holds_parts(tokens, pos, date_time.0.tokens(), rest);
                lemma_date_reads_back(date_time.0, tokens, pos);
                lemma_holds_at(tokens, pos + 5, rest, 0);
                lemma_holds_at(tokens, pos + 5, rest, 1);
                lemma_holds_at(tokens, pos + 5, rest, 2);
            },
        }
    }
}

impl AbsoluteTime {
    /// The canonical text.
    pub fn to_string(&self) -> (r: String)
        ensures
            r@ == self.text(),
    {
        match self {
            AbsoluteTime::Date(date) => date.to_string(),
            AbsoluteTime::DateTime(date_time) => date_time.to_string(),
        }
    }
}

impl core::str::FromStr for AbsoluteTime {
    type Err = ParseError;

    fn from_str(text: &str) -> (result: Result<AbsoluteTime, ParseError>)
        ensures
            result == read::<AbsoluteTime>(text@),
            result matches Ok(value) ==> value.wf(),
    {
        parse_str(text)
    }
}

/// A date is read back from its canonical tokens, whatever follows them.
pub proof fn lemma_date_reads_back(date: Date, tokens: Seq<Token>, pos: int)
    requires
        date.wf(),
        holds(tokens, pos, date.tokens()),
    ensures
        Date::grammar(tokens, pos) == (Outcome::Done { value: date, end: pos + 5 }),
{
    lemma_holds_at(tokens, pos, date.tokens(), 0);
    lemma_holds_at(tokens, pos, date.tokens(), 1);
    lemma_holds_at(tokens, pos, date.tokens(), 2);
    lemma_holds_at(tokens, pos, date.tokens(), 3);
    lemma_holds_at(tokens, pos, date.tokens(), 4);
}

/// A time of day is read back from its canonical tokens, where no half of
/// the day follows one on the 24-hour clock.
pub proof fn lemma_time_reads_back(time: Time, tokens: Seq<Token>, pos: int)
    requires
        time.wf(),
        holds(tokens, pos, time.tokens()),
        time.0 is Hour24 ==> AmPm::grammar(tokens, pos + 3) is Failed,
    ensures
        Time::grammar(tokens, pos) == (Outcome::Done {
            value: time,
            end: pos + time.tokens().len(),
        }),
{
    lemma_holds_at(tokens, pos, time.tokens(), 0);
    lemma_holds_at(tokens, pos, time.tokens(), 1);
    lemma_holds_at(tokens, pos, time.tokens(), 2);
    if time.0 is Hour12 {
        lemma_holds_at(tokens, pos, time.tokens(), 3);
    }
}

/// A date with a time is read back from its canonical tokens, where no
/// half of the day follows a time on the 24-hour clock.
pub proof fn lemma_date_time_reads_back(date_time: DateTime, tokens: Seq<Token>, pos: int)
    requires
        date_time.wf(),
        holds(tokens, pos, date_time.tokens()),
        date_time.1.0 is Hour24 ==> AmPm::grammar(tokens, pos + 9) is Failed,
    ensures
        DateTime::grammar(tokens, pos) == (Outcome::Done {
            value: date_time,
            end: pos + date_time.tokens().len(),
        }),
{
    let rest = seq![Token::Ident(Word::At)] + date_time.1.tokens();
    assert(date_time.tokens() =~= date_time.0.tokens() + rest);
    lemma_holds_parts(tokens, pos, date_time.0.tokens(), rest);
    lemma_holds_parts(tokens, pos + 5, seq![Token::Ident(Word::At)], date_time.1.tokens());
    lemma_holds_at(tokens, pos + 5, seq![Token::Ident(Word::At)], 0);
    lemma_date_reads_back(date_time.0, tokens, pos);
    lemma_time_reads_back(date_time.1, tokens, pos + 6);
}

/// The canonical tokens of an absolute time start with a number and `/`.
pub proof fn lemma_absolute_starts(time: AbsoluteTime)
    ensures
        time.tokens().len() >= 5,
        time.tokens()[0] is Int,
        time.tokens()[1] == Token::Punct('/'),
{
    match time {
        AbsoluteTime::Date(date) => {},
        AbsoluteTime::DateTime(date_time) => {
            assert(date_time.tokens()[0] == date_time.0.tokens()[0]);
            assert(date_time.tokens()[1] == date_time.0.tokens()[1]);
        },
    }
}

} // verus!
