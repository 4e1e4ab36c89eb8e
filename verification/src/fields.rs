//! The scalar fields of the language: each is read from one or two tokens
//! and checked against its bounds.

use crate::canonical::{lemma_holds_at, Canonical};
use crate::cursor::Cursor;
use crate::error::{Expected, ParseError};
use crate::parse::{
    identifier, integer_up_to, parse_str, read, take_identifier, take_integer, Outcome, Parse,
};
use crate::text::{decimal, decimal2, decimal2_string, decimal_string};
use crate::token::{Token, Word};
use vstd::prelude::*;
use vstd::std_specs::convert::FromSpecImpl;
use vstd::string::StringExecFns;

verus! {

/// A day of the month, from 1 to 31.
#[derive(Copy, Clone, Debug, PartialEq, Eq, Structural, Ord, Hash)]
pub struct DayOfMonth(pub u8);

/// A month of the year.
#[derive(Copy, Clone, Debug, PartialEq, Eq, Structural, Ord, Hash)]
pub enum Month {
    January,
    February,
    March,
    April,
    May,
    June,
    July,
    August,
    September,
    October,
    November,
    December,
}

/// A year, from 0 to 65535.
#[derive(Copy, Clone, Debug, PartialEq, Eq, Structural, Ord, Hash)]
pub struct Year(pub u16);

/// The half of the day that a 12-hour time lies in.
#[derive(Copy, Clone, Debug, PartialEq, Eq, Structural, Ord, Hash)]
pub enum AmPm {
    AM,
    PM,
}

/// An hour of the day, on the 12-hour or on the 24-hour clock.
#[derive(Copy, Clone, Debug, PartialEq, Eq, Structural, Ord, Hash)]
pub enum Hour {
    /// From 1 to 12, with the half of the day.
    Hour12(u8, AmPm),
    /// From 0 to 24.
    Hour24(u8),
}

/// A minute of the hour, from 0 to 60.
#[derive(Copy, Clone, Debug, PartialEq, Eq, Structural, Ord, Hash)]
pub struct Minute(pub u8);

/// A unit that a duration is counted in.
#[derive(Copy, Clone, Debug, PartialEq, Eq, Structural, Ord, Hash)]
pub enum TimeUnit {
    Minutes,
    Hours,
    Days,
    Weeks,
    Months,
    Years,
}

/// A unit that `next` and `last` apply to.
#[derive(Copy, Clone, Debug, PartialEq, Eq, Structural, Ord, Hash)]
pub enum RelativeTimeUnit {
    Week,
    Month,
    Year,
    Monday,
    Tuesday,
    Wednesday,
    Thursday,
    Friday,
    Saturday,
    Sunday,
}

impl Parse for DayOfMonth {
    open spec fn wf(self) -> bool {
        1 <= self.0 <= 31
    }

    /// A number from 1 to 31.
    open spec fn grammar(tokens: Seq<Token>, pos: int) -> Outcome<DayOfMonth> {
        integer_up_to(tokens, pos, 255).and_then(
            |n: u64, end: int|
                if 1 <= n <= 31 {
                    Outcome::Done { value: DayOfMonth(n as u8), end }
                } else {
                    Outcome::Failed { at: pos, expected: Expected::Day }
                },
        )
    }

    proof fn yields_within(tokens: Seq<Token>, pos: int) {
    }

    fn parse(input: &mut Cursor<'_>) -> (result: Result<DayOfMonth, ParseError>) {
        let mut cursor = input.fork();
        let n = take_integer(&mut cursor, 255)?;
        if n > 31 || n == 0 {
            return Err(ParseError { position: input.pos, expected: Expected::Day });
        }
        *input = cursor;
        Ok(DayOfMonth(n as u8))
    }
}

impl Canonical for DayOfMonth {
    open spec fn legible(self) -> bool {
        true
    }

    /// The number.
    open spec fn text(self) -> Seq<char> {
        decimal(self.0 as nat)
    }

    open spec fn tokens(self) -> Seq<Token> {
        seq![Token::Int(self.0 as u64)]
    }

    fn to_tokens(&self) -> (r: Vec<Token>) {
        vec![Token::Int(self.0 as u64)]
    }

    proof fn reads_back(self, tokens: Seq<Token>, pos: int) {
        lemma_holds_at(tokens, pos, self.tokens(), 0);
    }
}

impl DayOfMonth {
    /// The canonical text.
    pub fn to_string(&self) -> (r: String)
        ensures
            r@ == self.text(),
    {
        decimal_string(self.0 as u64)
    }
}

impl core::str::FromStr for DayOfMonth {
    type Err = ParseError;

    fn from_str(text: &str) -> (result: Result<DayOfMonth, ParseError>)
        ensures
            result == read::<DayOfMonth>(text@),
            result matches Ok(value) ==> value.wf(),
    {
        parse_str(text)
    }
}

impl Parse for Month {
    open spec fn wf(self) -> bool {
        true
    }

    /// A number from 1 to 12.
    open spec fn grammar(tokens: Seq<Token>, pos: int) -> Outcome<Month> {
        integer_up_to(tokens, pos, 255).and_then(
            |n: u64, end: int|
                match Month::numbered(n as int) {
                    Some(month) => Outcome::Done { value: month, end },
                    None => Outcome::Failed { at: pos, expected: Expected::Month },
                },
        )
    }

    proof fn yields_within(tokens: Seq<Token>, pos: int) {
    }

    fn parse(input: &mut Cursor<'_>) -> (result: Result<Month, ParseError>) {
        let mut cursor = input.fork();
        let n = take_integer(&mut cursor, 255)?;
        match Month::from_number(n) {
            Some(month) => {
                *input = cursor;
                Ok(month)
            },
            None => Err(ParseError { position: input.pos, expected: Expected::Month }),
        }
    }
}

impl Canonical for Month {
    open spec fn legible(self) -> bool {
        true
    }

    /// The number of the month.
    open spec fn text(self) -> Seq<char> {
        decimal(self.number() as nat)
    }

    open spec fn tokens(self) -> Seq<Token> {
        seq![Token::Int(self.number() as u64)]
    }

    fn to_tokens(&self) -> (r: Vec<Token>) {
        vec![Token::Int(self.to_number() as u64)]
    }

    proof fn reads_back(self, tokens: Seq<Token>, pos: int) {
        lemma_holds_at(tokens, pos, self.tokens(), 0);
    }
}

impl Month {
    /// The number of the month, from 1 for January to 12 for December.
    pub open spec fn number(self) -> u8 {
        match self {
            Month::January => 1,
            Month::February => 2,
            Month::March => 3,
            Month::April => 4,
            Month::May => 5,
            Month::June => 6,
            Month::July => 7,
            Month::August => 8,
            Month::September => 9,
            Month::October => 10,
            Month::November => 11,
            Month::December => 12,
        }
    }

    /// The month with the number `n`, for `n` from 1 to 12.
    pub open spec fn numbered(n: int) -> Option<Month> {
        if n == 1 {
            Some(Month::January)
        } else if n == 2 {
            Some(Month::February)
        } else if n == 3 {
            Some(Month::March)
        } else if n == 4 {
            Some(Month::April)
        } else if n == 5 {
            Some(Month::May)
        } else if n == 6 {
            Some(Month::June)
        } else if n == 7 {
            Some(Month::July)
        } else if n == 8 {
            Some(Month::August)
        } else if n == 9 {
            Some(Month::September)
        } else if n == 10 {
            Some(Month::October)
        } else if n == 11 {
            Some(Month::November)
        } else if n == 12 {
            Some(Month::December)
        } else {
            None
        }
    }

    /// The month with the number `n`, if `n` is from 1 to 12.
    pub fn from_number(n: u64) -> (r: Option<Month>)
        ensures
            r == Month::numbered(n as int),
            r is Some <==> 1 <= n <= 12,
    {
        match n {
            1 => Some(Month::January),
            2 => Some(Month::February),
            3 => Some(Month::March),
            4 => Some(Month::April),
            5 => Some(Month::May),
            6 => Some(Month::June),
            7 => Some(Month::July),
            8 => Some(Month::August),
            9 => Some(Month::September),
            10 => Some(Month::October),
            11 => Some(Month::November),
            12 => Some(Month::December),
            _ => None,
        }
    }

    /// The number of the month, from 1 for January to 12 for December.
    pub fn to_number(self) -> (r: u8)
        ensures
            r == self.number(),
            1 <= r <= 12,
    {
        match self {
            Month::January => 1,
            Month::February => 2,
            Month::March => 3,
            Month::April => 4,
            Month::May => 5,
            Month::June => 6,
            Month::July => 7,
            Month::August => 8,
            Month::September => 9,
            Month::October => 10,
            Month::November => 11,
            Month::December => 12,
        }
    }

    /// The canonical text.
    pub fn to_string(&self) -> (r: String)
        ensures
            r@ == self.text(),
    {
        decimal_string(self.to_number() as u64)
    }
}

impl From<Month> for u8 {
    fn from(value: Month) -> (r: u8) {
        value.to_number()
    }
}

impl FromSpecImpl<Month> for u8 {
    open spec fn obeys_from_spec() -> bool {
        true
    }

    open spec fn from_spec(value: Month) -> u8 {
        value.number()
    }
}

impl From<&Month> for u8 {
    fn from(value: &Month) -> (r: u8) {
        u8::from(*value)
    }
}

impl FromSpecImpl<&Month> for u8 {
    open spec fn obeys_from_spec() -> bool {
        true
    }

    open spec fn from_spec(value: &Month) -> u8 {
        value.number()
    }
}

impl core::str::FromStr for Month {
    type Err = ParseError;

    fn from_str(text: &str) -> (result: Result<Month, ParseError>)
        ensures
            result == read::<Month>(text@),
            result matches Ok(value) ==> value.wf(),
    {
        parse_str(text)
    }
}

impl Parse for Year {
    open spec fn wf(self) -> bool {
        true
    }

    /// A number up to 65535.
    open spec fn grammar(tokens: Seq<Token>, pos: int) -> Outcome<Year> {
        integer_up_to(tokens, pos, 65535).map(|n: u64| Year(n as u16))
    }

    proof fn yields_within(tokens: Seq<Token>, pos: int) {
    }

    fn parse(input: &mut Cursor<'_>) -> (result: Result<Year, ParseError>) {
        let n = take_integer(input, 65535)?;
        Ok(Year(n as u16))
    }
}

impl Canonical for Year {
    open spec fn legible(self) -> bool {
        true
    }

    /// The number.
    open spec fn text(self) -> Seq<char> {
        decimal(self.0 as nat)
    }

    open spec fn tokens(self) -> Seq<Token> {
        seq![Token::Int(self.0 as u64)]
    }

    fn to_tokens(&self) -> (r: Vec<Token>) {
        vec![Token::Int(self.0 as u64)]
    }

    proof fn reads_back(self, tokens: Seq<Token>, pos: int) {
        lemma_holds_at(tokens, pos, self.tokens(), 0);
    }
}

impl Year {
    /// The canonical text.
    pub fn to_string(&self) -> (r: String)
        ensures
            r@ == self.text(),
    {
        decimal_string(self.0 as u64)
    }
}

impl Parse for AmPm {
    open spec fn wf(self) -> bool {
        true
    }

    /// One of the words `am` and `pm`.
    open spec fn grammar(tokens: Seq<Token>, pos: int) -> Outcome<AmPm> {
        identifier(tokens, pos).and_then(
            |word: Word, end: int|
                match AmPm::named(word) {
                    Some(half) => Outcome::Done { value: half, end },
                    None => Outcome::Failed { at: pos, expected: Expected::Meridiem },
                },
        )
    }

    proof fn yields_within(tokens: Seq<Token>, pos: int) {
    }

    fn parse(input: &mut Cursor<'_>) -> (result: Result<AmPm, ParseError>) {
        let mut cursor = input.fork();
        let word = take_identifier(&mut cursor)?;
        match AmPm::from_word(word) {
            Some(half) => {
                *input = cursor;
                Ok(half)
            },
            None => Err(ParseError { position: input.pos, expected: Expected::Meridiem }),
        }
    }
}

impl Canonical for AmPm {
    open spec fn legible(self) -> bool {
        true
    }

    open spec fn text(self) -> Seq<char> {
        match self {
            AmPm::AM => "AM"@,
            AmPm::PM => "PM"@,
        }
    }

    open spec fn tokens(self) -> Seq<Token> {
        seq![Token::Ident(self.word())]
    }

    fn to_tokens(&self) -> (r: Vec<Token>) {
        vec![Token::Ident(self.to_word())]
    }

    proof fn reads_back(self, tokens: Seq<Token>, pos: int) {
        lemma_holds_at(tokens, pos, self.tokens(), 0);
    }
}

impl AmPm {
    /// The half of the day that `word` names.
    pub open spec fn named(word: Word) -> Option<AmPm> {
        match word {
            Word::Am => Some(AmPm::AM),
            Word::Pm => Some(AmPm::PM),
            _ => None,
        }
    }

    /// The word that names the half of the day.
    pub open spec fn word(self) -> Word {
        match self {
            AmPm::AM => Word::Am,
            AmPm::PM => Word::Pm,
        }
    }

    /// The word that names the half of the day.
    pub fn to_word(&self) -> (r: Word)
        ensures
            r == self.word(),
    {
        match self {
            AmPm::AM => Word::Am,
            AmPm::PM => Word::Pm,
        }
    }

    /// The half of the day that `word` names, if it names one.
    pub fn from_word(word: Word) -> (r: Option<AmPm>)
        ensures
            r == AmPm::named(word),
    {
        match word {
            Word::Am => Some(AmPm::AM),
            Word::Pm => Some(AmPm::PM),
            _ => None,
        }
    }

    /// The canonical text.
    pub fn as_str(&self) -> (r: &'static str)
        ensures
            r@ == self.text(),
    {
        match self {
            AmPm::AM => "AM",
            AmPm::PM => "PM",
        }
    }

    /// The canonical text.
    pub fn to_string(&self) -> (r: String)
        ensures
            r@ == self.text(),
    {
        String::from_str(self.as_str())
    }
}

impl AsRef<str> for AmPm {
    fn as_ref(&self) -> (r: &str)
        ensures
            r@ == self.text(),
    {
        self.as_str()
    }
}

impl core::str::FromStr for AmPm {
    type Err = ParseError;

    fn from_str(text: &str) -> (result: Result<AmPm, ParseError>)
        ensures
            result == read::<AmPm>(text@),
            result matches Ok(value) ==> value.wf(),
    {
        parse_str(text)
    }
}

impl Parse for Hour {
    open spec fn wf(self) -> bool {
        match self {
            Hour::Hour12(hour, _) => 1 <= hour <= 12,
            Hour::Hour24(hour) => hour <= 24,
        }
    }

    /// A number, and after it a half of the day if one follows: the number
    /// is then an hour on the 12-hour clock, else on the 24-hour clock. Any
    /// other identifier after the number is left where it is.
    open spec fn grammar(tokens: Seq<Token>, pos: int) -> Outcome<Hour> {
        integer_up_to(tokens, pos, 255).and_then(
            |n: u64, end: int|
                {
                    let half = AmPm::grammar(tokens, end);
                    match Hour::on_clock(n, half.value()) {
                        Ok(hour) => Outcome::Done { value: hour, end: half.end_or(end) },
                        Err(expected) => Outcome::Failed { at: pos, expected },
                    }
                },
        )
    }

    proof fn yields_within(tokens: Seq<Token>, pos: int) {
    }

    fn parse(input: &mut Cursor<'_>) -> (result: Result<Hour, ParseError>) {
        let mut cursor = input.fork();
        let n = take_integer(&mut cursor, 255)?;
        let half = AmPm::parse(&mut cursor).ok();
        match Hour::check(n, half) {
            Ok(hour) => {
                *input = cursor;
                Ok(hour)
            },
            Err(expected) => Err(ParseError { position: input.pos, expected }),
        }
    }
}

impl Canonical for Hour {
    open spec fn legible(self) -> bool {
        true
    }

    /// The number, and on the 12-hour clock the half of
    /// the day after a space.
    open spec fn text(self) -> Seq<char> {
        match self {
            Hour::Hour12(hour, half) => decimal(hour as nat) + " "@ + half.text(),
            Hour::Hour24(hour) => decimal(hour as nat),
        }
    }

    open spec fn tokens(self) -> Seq<Token> {
        match self {
            Hour::Hour12(hour, half) => seq![Token::Int(hour as u64), Token::Ident(half.word())],
            Hour::Hour24(hour) => seq![Token::Int(hour as u64)],
        }
    }

    fn to_tokens(&self) -> (r: Vec<Token>) {
        match *self {
            Hour::Hour12(hour, half) => vec![Token::Int(hour as u64), Token::Ident(half.to_word())],
            Hour::Hour24(hour) => vec![Token::Int(hour as u64)],
        }
    }

    proof fn reads_back(self, tokens: Seq<Token>, pos: int) {
        lemma_holds_at(tokens, pos, self.tokens(), 0);
        if self is Hour12 {
            lemma_holds_at(tokens, pos, self.tokens(), 1);
        }
    }
}

impl Hour {
    /// The hour numbered `n` on the clock that `half` selects: the 12-hour
    /// clock with a half of the day, the 24-hour clock without one.
    pub open spec fn on_clock(n: u64, half: Option<AmPm>) -> Result<Hour, Expected> {
        match half {
            Some(half) => if 1 <= n <= 12 {
                Ok(Hour::Hour12(n as u8, half))
            } else {
                Err(Expected::Hour12)
            },
            None => if n <= 24 {
                Ok(Hour::Hour24(n as u8))
            } else {
                Err(Expected::Hour24)
            },
        }
    }

    /// The hour numbered `n` on the clock that `half` selects, or the bounds
    /// that `n` breaks.
    pub fn check(n: u64, half: Option<AmPm>) -> (r: Result<Hour, Expected>)
        ensures
            r == Hour::on_clock(n, half),
    {
        match half {
            Some(half) => {
                if n > 12 || n == 0 {
                    Err(Expected::Hour12)
                } else {
                    Ok(Hour::Hour12(n as u8, half))
                }
            },
            None => {
                if n > 24 {
                    Err(Expected::Hour24)
                } else {
                    Ok(Hour::Hour24(n as u8))
                }
            },
        }
    }

    /// The canonical text.
    pub fn to_string(&self) -> (r: String)
        ensures
            r@ == self.text(),
    {
        match self {
            Hour::Hour12(hour, half) => {
                decimal_string(*hour as u64).concat(" ").concat(half.as_str())
            },
            Hour::Hour24(hour) => decimal_string(*hour as u64),
        }
    }
}

impl core::str::FromStr for Hour {
    type Err = ParseError;

    fn from_str(text: &str) -> (result: Result<Hour, ParseError>)
        ensures
            result == read::<Hour>(text@),
            result matches Ok(value) ==> value.wf(),
    {
        parse_str(text)
    }
}

impl Parse for Minute {
    open spec fn wf(self) -> bool {
        self.0 <= 60
    }

    /// A number up to 60.
    open spec fn grammar(tokens: Seq<Token>, pos: int) -> Outcome<Minute> {
        integer_up_to(tokens, pos, 255).and_then(
            |n: u64, end: int|
                if n <= 60 {
                    Outcome::Done { value: Minute(n as u8), end }
                } else {
                    Outcome::Failed { at: pos, expected: Expected::Minute }
                },
        )
    }

    proof fn yields_within(tokens: Seq<Token>, pos: int) {
    }

    fn parse(input: &mut Cursor<'_>) -> (result: Result<Minute, ParseError>) {
        let mut cursor = input.fork();
        let n = take_integer(&mut cursor, 255)?;
        if n > 60 {
            return Err(ParseError { position: input.pos, expected: Expected::Minute });
        }
        *input = cursor;
        Ok(Minute(n as u8))
    }
}

impl Canonical for Minute {
    open spec fn legible(self) -> bool {
        true
    }

    /// The number in two digits.
    open spec fn text(self) -> Seq<char> {
        decimal2(self.0 as nat)
    }

    open spec fn tokens(self) -> Seq<Token> {
        seq![Token::Int(self.0 as u64)]
    }

    fn to_tokens(&self) -> (r: Vec<Token>) {
        vec![Token::Int(self.0 as u64)]
    }

    proof fn reads_back(self, tokens: Seq<Token>, pos: int) {
        lemma_holds_at(tokens, pos, self.tokens(), 0);
    }
}

impl Minute {
    /// The canonical text.
    pub fn to_string(&self) -> (r: String)
        ensures
            r@ == self.text(),
    {
        decimal2_string(self.0 as u64)
    }
}

impl core::str::FromStr for Minute {
    type Err = ParseError;

    fn from_str(text: &str) -> (result: Result<Minute, ParseError>)
        ensures
            result == read::<Minute>(text@),
            result matches Ok(value) ==> value.wf(),
    {
        parse_str(text)
    }
}

impl Parse for TimeUnit {
    open spec fn wf(self) -> bool {
        true
    }

    /// A word that names a unit, in any of its spellings.
    open spec fn grammar(tokens: Seq<Token>, pos: int) -> Outcome<TimeUnit> {
        identifier(tokens, pos).and_then(
            |word: Word, end: int|
                match TimeUnit::named(word) {
                    Some(unit) => Outcome::Done { value: unit, end },
                    None => Outcome::Failed { at: pos, expected: Expected::TimeUnit },
                },
        )
    }

    proof fn yields_within(tokens: Seq<Token>, pos: int) {
    }

    fn parse(input: &mut Cursor<'_>) -> (result: Result<TimeUnit, ParseError>) {
        let mut cursor = input.fork();
        let word = take_identifier(&mut cursor)?;
        match TimeUnit::from_word(word) {
            Some(unit) => {
                *input = cursor;
                Ok(unit)
            },
            None => Err(ParseError { position: input.pos, expected: Expected::TimeUnit }),
        }
    }
}

impl Canonical for TimeUnit {
    open spec fn legible(self) -> bool {
        true
    }

    /// The plural name of the unit.
    open spec fn text(self) -> Seq<char> {
        match self {
            TimeUnit::Minutes => "minutes"@,
            TimeUnit::Hours => "hours"@,
            TimeUnit::Days => "days"@,
            TimeUnit::Weeks => "weeks"@,
            TimeUnit::Months => "months"@,
            TimeUnit::Years => "years"@,
        }
    }

    open spec fn tokens(self) -> Seq<Token> {
        seq![Token::Ident(self.plural())]
    }

    fn to_tokens(&self) -> (r: Vec<Token>) {
        vec![Token::Ident(self.to_plural())]
    }

    proof fn reads_back(self, tokens: Seq<Token>, pos: int) {
        lemma_holds_at(tokens, pos, self.tokens(), 0);
    }
}

impl TimeUnit {
    /// The unit that `word` names, in any of its spellings.
    pub open spec fn named(word: Word) -> Option<TimeUnit> {
        match word {
            Word::Mins | Word::Minutes | Word::Minute | Word::Min => Some(TimeUnit::Minutes),
            Word::Hours | Word::Hrs | Word::Hour | Word::Hr => Some(TimeUnit::Hours),
            Word::Days | Word::Day => Some(TimeUnit::Days),
            Word::Weeks | Word::Week => Some(TimeUnit::Weeks),
            Word::Months | Word::Month => Some(TimeUnit::Months),
            Word::Years | Word::Yr | Word::Year => Some(TimeUnit::Years),
            _ => None,
        }
    }

    /// The unit of rank `k` among the six, from years at rank 0 down to
    /// minutes at rank 5.
    pub open spec fn ranked(k: int) -> TimeUnit {
        if k <= 0 {
            TimeUnit::Years
        } else if k == 1 {
            TimeUnit::Months
        } else if k == 2 {
            TimeUnit::Weeks
        } else if k == 3 {
            TimeUnit::Days
        } else if k == 4 {
            TimeUnit::Hours
        } else {
            TimeUnit::Minutes
        }
    }

    /// The word that names one of the unit.
    pub open spec fn singular(self) -> Word {
        match self {
            TimeUnit::Minutes => Word::Minute,
            TimeUnit::Hours => Word::Hour,
            TimeUnit::Days => Word::Day,
            TimeUnit::Weeks => Word::Week,
            TimeUnit::Months => Word::Month,
            TimeUnit::Years => Word::Year,
        }
    }

    /// The word that names several of the unit.
    pub open spec fn plural(self) -> Word {
        match self {
            TimeUnit::Minutes => Word::Minutes,
            TimeUnit::Hours => Word::Hours,
            TimeUnit::Days => Word::Days,
            TimeUnit::Weeks => Word::Weeks,
            TimeUnit::Months => Word::Months,
            TimeUnit::Years => Word::Years,
        }
    }

    /// The word that names the unit after the count `n`: in the singular
    /// after 1, else in the plural.
    pub open spec fn counted(self, n: u64) -> Word {
        if n == 1 {
            self.singular()
        } else {
            self.plural()
        }
    }

    /// The word that names one of the unit.
    pub fn to_singular(&self) -> (r: Word)
        ensures
            r == self.singular(),
    {
        match self {
            TimeUnit::Minutes => Word::Minute,
            TimeUnit::Hours => Word::Hour,
            TimeUnit::Days => Word::Day,
            TimeUnit::Weeks => Word::Week,
            TimeUnit::Months => Word::Month,
            TimeUnit::Years => Word::Year,
        }
    }

    /// The word that names several of the unit.
    pub fn to_plural(&self) -> (r: Word)
        ensures
            r == self.plural(),
    {
        match self {
            TimeUnit::Minutes => Word::Minutes,
            TimeUnit::Hours => Word::Hours,
            TimeUnit::Days => Word::Days,
            TimeUnit::Weeks => Word::Weeks,
            TimeUnit::Months => Word::Months,
            TimeUnit::Years => Word::Years,
        }
    }

    /// The word that names the unit after the count `n`.
    pub fn to_word(&self, n: u64) -> (r: Word)
        ensures
            r == self.counted(n),
    {
        if n == 1 {
            self.to_singular()
        } else {
            self.to_plural()
        }
    }

    /// The unit of rank `k` among the six, from years at rank 0 down to
    /// minutes at rank 5.
    pub fn from_rank(k: usize) -> (r: TimeUnit)
        ensures
            r == TimeUnit::ranked(k as int),
    {
        match k {
            0 => TimeUnit::Years,
            1 => TimeUnit::Months,
            2 => TimeUnit::Weeks,
            3 => TimeUnit::Days,
            4 => TimeUnit::Hours,
            _ => TimeUnit::Minutes,
        }
    }

    /// The unit that `word` names, if it names one.
    pub fn from_word(word: Word) -> (r: Option<TimeUnit>)
        ensures
            r == TimeUnit::named(word),
    {
        match word {
            Word::Mins | Word::Minutes | Word::Minute | Word::Min => Some(TimeUnit::Minutes),
            Word::Hours | Word::Hrs | Word::Hour | Word::Hr => Some(TimeUnit::Hours),
            Word::Days | Word::Day => Some(TimeUnit::Days),
            Word::Weeks | Word::Week => Some(TimeUnit::Weeks),
            Word::Months | Word::Month => Some(TimeUnit::Months),
            Word::Years | Word::Yr | Word::Year => Some(TimeUnit::Years),
            _ => None,
        }
    }

    /// The name of the unit in the singular.
    pub open spec fn singular_text(self) -> Seq<char> {
        match self {
            TimeUnit::Minutes => "minute"@,
            TimeUnit::Hours => "hour"@,
            TimeUnit::Days => "day"@,
            TimeUnit::Weeks => "week"@,
            TimeUnit::Months => "month"@,
            TimeUnit::Years => "year"@,
        }
    }

    /// The name of the unit as it stands after the count `n`: in the
    /// singular after 1, else in the plural.
    pub open spec fn noun(self, n: u64) -> Seq<char> {
        if n == 1 {
            self.singular_text()
        } else {
            self.text()
        }
    }

    /// The name of the unit as it stands after the count `n`.
    pub fn noun_str(&self, n: u64) -> (r: &'static str)
        ensures
            r@ == self.noun(n),
    {
        if n != 1 {
            return self.as_str();
        }
        match self {
            TimeUnit::Minutes => "minute",
            TimeUnit::Hours => "hour",
            TimeUnit::Days => "day",
            TimeUnit::Weeks => "week",
            TimeUnit::Months => "month",
            TimeUnit::Years => "year",
        }
    }

    /// The canonical text.
    pub fn as_str(&self) -> (r: &'static str)
        ensures
            r@ == self.text(),
    {
        match self {
            TimeUnit::Minutes => "minutes",
            TimeUnit::Hours => "hours",
            TimeUnit::Days => "days",
            TimeUnit::Weeks => "weeks",
            TimeUnit::Months => "months",
            TimeUnit::Years => "years",
        }
    }

    /// The canonical text.
    pub fn to_string(&self) -> (r: String)
        ensures
            r@ == self.text(),
    {
        String::from_str(self.as_str())
    }
}

impl AsRef<str> for TimeUnit {
    fn as_ref(&self) -> (r: &str)
        ensures
            r@ == self.text(),
    {
        self.as_str()
    }
}

impl core::str::FromStr for TimeUnit {
    type Err = ParseError;

    fn from_str(text: &str) -> (result: Result<TimeUnit, ParseError>)
        ensures
            result == read::<TimeUnit>(text@),
            result matches Ok(value) ==> value.wf(),
    {
        parse_str(text)
    }
}

impl Parse for RelativeTimeUnit {
    open spec fn wf(self) -> bool {
        true
    }

    /// One of the words `week`, `month` and `year` or the name of a weekday.
    open spec fn grammar(tokens: Seq<Token>, pos: int) -> Outcome<RelativeTimeUnit> {
        identifier(tokens, pos).and_then(
            |word: Word, end: int|
                match RelativeTimeUnit::named(word) {
                    Some(unit) => Outcome::Done { value: unit, end },
                    None => Outcome::Failed { at: pos, expected: Expected::RelativeUnit },
                },
        )
    }

    proof fn yields_within(tokens: Seq<Token>, pos: int) {
    }

    fn parse(input: &mut Cursor<'_>) -> (result: Result<RelativeTimeUnit, ParseError>) {
        let mut cursor = input.fork();
        let word = take_identifier(&mut cursor)?;
        match RelativeTimeUnit::from_word(word) {
            Some(unit) => {
                *input = cursor;
                Ok(unit)
            },
            None => Err(ParseError { position: input.pos, expected: Expected::RelativeUnit }),
        }
    }
}

impl Canonical for RelativeTimeUnit {
    open spec fn legible(self) -> bool {
        true
    }

    /// The name of the unit, a weekday with a capital.
    open spec fn text(self) -> Seq<char> {
        match self {
            RelativeTimeUnit::Week => "week"@,
            RelativeTimeUnit::Month => "month"@,
            RelativeTimeUnit::Year => "year"@,
            RelativeTimeUnit::Monday => "Monday"@,
            RelativeTimeUnit::Tuesday => "Tuesday"@,
            RelativeTimeUnit::Wednesday => "Wednesday"@,
            RelativeTimeUnit::Thursday => "Thursday"@,
            RelativeTimeUnit::Friday => "Friday"@,
            RelativeTimeUnit::Saturday => "Saturday"@,
            RelativeTimeUnit::Sunday => "Sunday"@,
        }
    }

    open spec fn tokens(self) -> Seq<Token> {
        seq![Token::Ident(self.word())]
    }

    fn to_tokens(&self) -> (r: Vec<Token>) {
        vec![Token::Ident(self.to_word())]
    }

    proof fn reads_back(self, tokens: Seq<Token>, pos: int) {
        lemma_holds_at(tokens, pos, self.tokens(), 0);
    }
}

impl RelativeTimeUnit {
    /// The unit that `word` names.
    pub open spec fn named(word: Word) -> Option<RelativeTimeUnit> {
        match word {
            Word::Week => Some(RelativeTimeUnit::Week),
            Word::Month => Some(RelativeTimeUnit::Month),
            Word::Year => Some(RelativeTimeUnit::Year),
            Word::Monday => Some(RelativeTimeUnit::Monday),
            Word::Tuesday => Some(RelativeTimeUnit::Tuesday),
            Word::Wednesday => Some(RelativeTimeUnit::Wednesday),
            Word::Thursday => Some(RelativeTimeUnit::Thursday),
            Word::Friday => Some(RelativeTimeUnit::Friday),
            Word::Saturday => Some(RelativeTimeUnit::Saturday),
            Word::Sunday => Some(RelativeTimeUnit::Sunday),
            _ => None,
        }
    }

    /// The word that names the unit.
    pub open spec fn word(self) -> Word {
        match self {
            RelativeTimeUnit::Week => Word::Week,
            RelativeTimeUnit::Month => Word::Month,
            RelativeTimeUnit::Year => Word::Year,
            RelativeTimeUnit::Monday => Word::Monday,
            RelativeTimeUnit::Tuesday => Word::Tuesday,
            RelativeTimeUnit::Wednesday => Word::Wednesday,
            RelativeTimeUnit::Thursday => Word::Thursday,
            RelativeTimeUnit::Friday => Word::Friday,
            RelativeTimeUnit::Saturday => Word::Saturday,
            RelativeTimeUnit::Sunday => Word::Sunday,
        }
    }

    /// The word that names the unit.
    pub fn to_word(&self) -> (r: Word)
        ensures
            r == self.word(),
    {
        match self {
            RelativeTimeUnit::Week => Word::Week,
            RelativeTimeUnit::Month => Word::Month,
            RelativeTimeUnit::Year => Word::Year,
            RelativeTimeUnit::Monday => Word::Monday,
            RelativeTimeUnit::Tuesday => Word::Tuesday,
            RelativeTimeUnit::Wednesday => Word::Wednesday,
            RelativeTimeUnit::Thursday => Word::Thursday,
            RelativeTimeUnit::Friday => Word::Friday,
            RelativeTimeUnit::Saturday => Word::Saturday,
            RelativeTimeUnit::Sunday => Word::Sunday,
        }
    }

    /// The unit that `word` names, if it names one.
    pub fn from_word(word: Word) -> (r: Option<RelativeTimeUnit>)
        ensures
            r == RelativeTimeUnit::named(word),
    {
        match word {
            Word::Week => Some(RelativeTimeUnit::Week),
            Word::Month => Some(RelativeTimeUnit::Month),
            Word::Year => Some(RelativeTimeUnit::Year),
            Word::Monday => Some(RelativeTimeUnit::Monday),
            Word::Tuesday => Some(RelativeTimeUnit::Tuesday),
            Word::Wednesday => Some(RelativeTimeUnit::Wednesday),
            Word::Thursday => Some(RelativeTimeUnit::Thursday),
            Word::Friday => Some(RelativeTimeUnit::Friday),
            Word::Saturday => Some(RelativeTimeUnit::Saturday),
            Word::Sunday => Some(RelativeTimeUnit::Sunday),
            _ => None,
        }
    }

    /// The canonical text.
    pub fn as_str(&self) -> (r: &'static str)
        ensures
            r@ == self.text(),
    {
        match self {
            RelativeTimeUnit::Week => "week",
            RelativeTimeUnit::Month => "month",
            RelativeTimeUnit::Year => "year",
            RelativeTimeUnit::Monday => "Monday",
            RelativeTimeUnit::Tuesday => "Tuesday",
            RelativeTimeUnit::Wednesday => "Wednesday",
            RelativeTimeUnit::Thursday => "Thursday",
            RelativeTimeUnit::Friday => "Friday",
            RelativeTimeUnit::Saturday => "Saturday",
            RelativeTimeUnit::Sunday => "Sunday",
        }
    }

    /// The canonical text.
    pub fn to_string(&self) -> (r: String)
        ensures
            r@ == self.text(),
    {
        String::from_str(self.as_str())
    }
}

impl core::str::FromStr for RelativeTimeUnit {
    type Err = ParseError;

    fn from_str(text: &str) -> (result: Result<RelativeTimeUnit, ParseError>)
        ensures
            result == read::<RelativeTimeUnit>(text@),
            result matches Ok(value) ==> value.wf(),
    {
        parse_str(text)
    }
}

} // verus!
