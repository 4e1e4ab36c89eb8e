//! Durations: a magnitude for each unit of time, anchored nowhere.

use crate::canonical::{closes, holds, joined, lemma_holds_at, lemma_holds_parts, Canonical};
use crate::cursor::Cursor;
use crate::error::{Expected, ParseError};
use crate::fields::TimeUnit;
use crate::number::Number;
use crate::parse::{parse_str, read, Outcome, Parse};
use crate::text::{decimal, decimal_string, lemma_decimal_is_not_empty};
use crate::token::{int_at, punct_at, word_at, Token, Word};
use vstd::prelude::*;
use vstd::string::StringExecFns;

verus! {

/// A span of time, as one magnitude for each unit. A unit that was not
/// named counts zero.
#[derive(Copy, Clone, Debug, PartialEq, Eq, Structural, Ord, Hash)]
pub struct Duration {
    pub minutes: Number,
    pub hours: Number,
    pub days: Number,
    pub weeks: Number,
    pub months: Number,
    pub years: Number,
}

/// The text of one magnitude with its unit: `1 day`, `3 days`.
pub open spec fn item_text(n: u64, unit: TimeUnit) -> Seq<char> {
    decimal(n as nat) + " "@ + unit.noun(n)
}

/// The text `before` with the item for `n` of `unit` after it: nothing is
/// added for zero, and `, ` stands between two items.
pub open spec fn with_item(before: Seq<char>, n: u64, unit: TimeUnit) -> Seq<char> {
    if n == 0 {
        before
    } else if before.len() == 0 {
        item_text(n, unit)
    } else {
        before + ", "@ + item_text(n, unit)
    }
}

/// Appends the item for `n` of `unit` to `text`.
fn push_item(text: String, n: u64, unit: TimeUnit, started: bool) -> (r: (String, bool))
    requires
        started == (text@.len() > 0),
    ensures
        r.0@ == with_item(text@, n, unit),
        r.1 == (r.0@.len() > 0),
{
    if n == 0 {
        return (text, started);
    }
    proof {
        lemma_decimal_is_not_empty(n as nat);
    }
    let item = decimal_string(n).concat(" ").concat(unit.noun_str(n));
    if started {
        (text.concat(", ").concat(item.as_str()), true)
    } else {
        (item, true)
    }
}

impl Parse for Duration {
    open spec fn wf(self) -> bool {
        true
    }

    /// One item or more, summed unit by unit.
    open spec fn grammar(tokens: Seq<Token>, pos: int) -> Outcome<Duration> {
        Duration::items(tokens, pos, Duration::zero(), false)
    }

    proof fn yields_within(tokens: Seq<Token>, pos: int) {
        lemma_items_within(tokens, pos, Duration::zero(), false);
    }

    fn parse(input: &mut Cursor<'_>) -> (result: Result<Duration, ParseError>) {
        let mut cursor = input.fork();
        let mut sum = Duration::new();
        let mut any = false;
        while cursor.peek_int_at(0)
            invariant
                cursor.tokens == input.tokens,
                *input == *old(input),
                !any ==> cursor.pos == input.pos,
                Duration::items(input.tokens@, input.pos as int, Duration::zero(), false)
                    == Duration::items(input.tokens@, cursor.pos as int, sum, any),
            decreases cursor.tokens@.len() - cursor.pos,
        {
            let start = cursor.pos;
            let n = Number::parse(&mut cursor)?;
            let unit = TimeUnit::parse(&mut cursor)?;
            sum = match sum.checked_add(unit, n) {
                Some(more) => more,
                None => {
                    return Err(ParseError { position: start, expected: Expected::Fit });
                },
            };
            any = true;
            if cursor.peek_punct_at(0, ',') {
                cursor.advance();
            }
            if cursor.peek_word_at(0) == Some(Word::And) {
                cursor.advance();
            }
        }
        if !any {
            return Err(ParseError { position: input.pos, expected: Expected::DurationItem });
        }
        *input = cursor;
        Ok(sum)
    }
}

impl Canonical for Duration {
    open spec fn legible(self) -> bool {
        !self.is_zero()
    }

    /// The magnitudes that are not zero, from years down
    /// to minutes, each with its unit, and `, ` between them.
    open spec fn text(self) -> Seq<char> {
        let years = with_item(Seq::empty(), self.years.0, TimeUnit::Years);
        let months = with_item(years, self.months.0, TimeUnit::Months);
        let weeks = with_item(months, self.weeks.0, TimeUnit::Weeks);
        let days = with_item(weeks, self.days.0, TimeUnit::Days);
        let hours = with_item(days, self.hours.0, TimeUnit::Hours);
        with_item(hours, self.minutes.0, TimeUnit::Minutes)
    }

    open spec fn tokens(self) -> Seq<Token> {
        self.tokens_from(0)
    }

    fn to_tokens(&self) -> (r: Vec<Token>) {
        let mut tokens: Vec<Token> = Vec::new();
        let mut k: usize = 6;
        while k > 0
            invariant
                k <= 6,
                tokens@ == self.tokens_from(k as int),
            decreases k,
        {
            k = k - 1;
            let unit = TimeUnit::from_rank(k);
            let n = self.get(unit).0;
            if n != 0 {
                let mut item = vec![Token::Int(n), Token::Ident(unit.to_word(n))];
                if tokens.len() > 0 {
                    item.push(Token::Punct(','));
                }
                assert(item@ + tokens@ =~= self.tokens_from(k as int));
                tokens = joined(item, tokens);
            }
        }
        tokens
    }

    proof fn reads_back(self, tokens: Seq<Token>, pos: int) {
        lemma_stops_where_closes(tokens, pos + self.tokens().len());
        lemma_duration_reads_back(self, tokens, pos);
    }
}

impl Duration {
    /// The duration of no time at all.
    pub open spec fn zero() -> Duration {
        Duration {
            minutes: Number(0),
            hours: Number(0),
            days: Number(0),
            weeks: Number(0),
            months: Number(0),
            years: Number(0),
        }
    }

    /// The duration of no time at all.
    pub fn new() -> (r: Duration)
        ensures
            r == Duration::zero(),
    {
        Duration {
            minutes: Number(0),
            hours: Number(0),
            days: Number(0),
            weeks: Number(0),
            months: Number(0),
            years: Number(0),
        }
    }

    /// Whether the duration is of no time at all.
    pub open spec fn is_zero(self) -> bool {
        self == Duration::zero()
    }

    /// The magnitude counted in `unit`.
    pub open spec fn of(self, unit: TimeUnit) -> Number {
        match unit {
            TimeUnit::Minutes => self.minutes,
            TimeUnit::Hours => self.hours,
            TimeUnit::Days => self.days,
            TimeUnit::Weeks => self.weeks,
            TimeUnit::Months => self.months,
            TimeUnit::Years => self.years,
        }
    }

    /// The magnitude counted in `unit`.
    pub fn get(&self, unit: TimeUnit) -> (r: Number)
        ensures
            r == self.of(unit),
    {
        match unit {
            TimeUnit::Minutes => self.minutes,
            TimeUnit::Hours => self.hours,
            TimeUnit::Days => self.days,
            TimeUnit::Weeks => self.weeks,
            TimeUnit::Months => self.months,
            TimeUnit::Years => self.years,
        }
    }

    /// The duration with the magnitude of `unit` replaced by `n`.
    pub open spec fn with(self, unit: TimeUnit, n: Number) -> Duration {
        match unit {
            TimeUnit::Minutes => Duration { minutes: n, ..self },
            TimeUnit::Hours => Duration { hours: n, ..self },
            TimeUnit::Days => Duration { days: n, ..self },
            TimeUnit::Weeks => Duration { weeks: n, ..self },
            TimeUnit::Months => Duration { months: n, ..self },
            TimeUnit::Years => Duration { years: n, ..self },
        }
    }

    /// The duration with `n` more of `unit`, where the sum fits in `u64`.
    pub open spec fn plus(self, unit: TimeUnit, n: Number) -> Option<Duration> {
        if self.of(unit).0 + n.0 <= u64::MAX {
            Some(self.with(unit, Number((self.of(unit).0 + n.0) as u64)))
        } else {
            None
        }
    }

    /// The duration with `n` more of `unit`, or `None` where the sum does
    /// not fit in `u64`.
    pub fn checked_add(&self, unit: TimeUnit, n: Number) -> (r: Option<Duration>)
        ensures
            r == self.plus(unit, n),
    {
        let sum = match self.get(unit).0.checked_add(n.0) {
            Some(sum) => Number(sum),
            None => {
                return None;
            },
        };
        Some(
            match unit {
                TimeUnit::Minutes => Duration { minutes: sum, ..*self },
                TimeUnit::Hours => Duration { hours: sum, ..*self },
                TimeUnit::Days => Duration { days: sum, ..*self },
                TimeUnit::Weeks => Duration { weeks: sum, ..*self },
                TimeUnit::Months => Duration { months: sum, ..*self },
                TimeUnit::Years => Duration { years: sum, ..*self },
            },
        )
    }

    /// The tokens of the magnitudes that are not zero, from the unit of rank
    /// `k` down to minutes: a number and the word for its unit each, and a
    /// comma between two of them.
    pub open spec fn tokens_from(self, k: int) -> Seq<Token>
        decreases 6 - k,
    {
        if k >= 6 {
            Seq::empty()
        } else {
            let unit = TimeUnit::ranked(k);
            let n = self.of(unit).0;
            let rest = self.tokens_from(k + 1);
            let item = seq![Token::Int(n), Token::Ident(unit.counted(n))];
            if n == 0 {
                rest
            } else if rest.len() == 0 {
                item
            } else {
                item + seq![Token::Punct(',')] + rest
            }
        }
    }

    /// Whether the duration counts nothing in the units of rank `k` and
    /// below, and agrees with `whole` in the units above.
    pub open spec fn covers(self, whole: Duration, k: int) -> bool {
        forall|j: int|
            0 <= j < 6 ==> (#[trigger] self.of(TimeUnit::ranked(j))).0 == if j < k {
                whole.of(TimeUnit::ranked(j)).0
            } else {
                0
            }
    }

    /// Whether the items of a duration end before index `end`: no integer
    /// literal, no comma and no `and` stands there.
    pub open spec fn stops(tokens: Seq<Token>, end: int) -> bool {
        &&& !int_at(tokens, end)
        &&& !punct_at(tokens, end, ',')
        &&& word_at(tokens, end) != Some(Word::And)
    }

    /// The index after the separators that start at `pos`: a comma if there
    /// is one, and after it the word `and` if there is one.
    pub open spec fn after_separators(tokens: Seq<Token>, pos: int) -> int {
        let p = if punct_at(tokens, pos, ',') {
            pos + 1
        } else {
            pos
        };
        if word_at(tokens, p) == Some(Word::And) {
            p + 1
        } else {
            p
        }
    }

    /// The items from index `pos` on, added to `sum`: a number and a unit,
    /// then separators, as long as an integer literal comes next. `any` tells
    /// whether an item was read before; without any item the parse fails.
    pub open spec fn items(tokens: Seq<Token>, pos: int, sum: Duration, any: bool) -> Outcome<
        Duration,
    >
        decreases tokens.len() - pos,
    {
        if int_at(tokens, pos) {
            match Number::grammar(tokens, pos) {
                Outcome::Failed { at, expected } => Outcome::Failed { at, expected },
                Outcome::Done { value: n, end: e1 } => match TimeUnit::grammar(tokens, e1) {
                    Outcome::Failed { at, expected } => Outcome::Failed { at, expected },
                    Outcome::Done { value: unit, end: e2 } => match sum.plus(unit, n) {
                        None => Outcome::Failed { at: pos, expected: Expected::Fit },
                        Some(more) => Duration::items(
                            tokens,
                            Duration::after_separators(tokens, e2),
                            more,
                            true,
                        ),
                    },
                },
            }
        } else if any {
            Outcome::Done { value: sum, end: pos }
        } else {
            Outcome::Failed { at: pos, expected: Expected::DurationItem }
        }
    }

    /// The canonical text.
    pub fn to_string(&self) -> (r: String)
        ensures
            r@ == self.text(),
    {
        let (text, started) = push_item(String::new(), self.years.0, TimeUnit::Years, false);
        let (text, started) = push_item(text, self.months.0, TimeUnit::Months, started);
        let (text, started) = push_item(text, self.weeks.0, TimeUnit::Weeks, started);
        let (text, started) = push_item(text, self.days.0, TimeUnit::Days, started);
        let (text, started) = push_item(text, self.hours.0, TimeUnit::Hours, started);
        let (text, _) = push_item(text, self.minutes.0, TimeUnit::Minutes, started);
        text
    }
}

impl core::str::FromStr for Duration {
    type Err = ParseError;

    fn from_str(text: &str) -> (result: Result<Duration, ParseError>)
        ensures
            result == read::<Duration>(text@),
            result matches Ok(value) ==> value.wf(),
    {
        parse_str(text)
    }
}

/// The items of a duration stay within the input: they end behind the
/// start, behind one token or more if no item was read before, and a
/// failure names a token from the start on, or the end of the input.
pub proof fn lemma_items_within(tokens: Seq<Token>, pos: int, sum: Duration, any: bool)
    requires
        0 <= pos <= tokens.len(),
    ensures
        match Duration::items(tokens, pos, sum, any) {
            Outcome::Done { value, end } => pos <= end <= tokens.len() && (any || pos < end),
            Outcome::Failed { at, expected } => pos <= at <= tokens.len(),
        },
    decreases tokens.len() - pos,
{
    if int_at(tokens, pos) {
        if let Outcome::Done { value: unit, end } = TimeUnit::grammar(tokens, pos + 1) {
            if let Some(more) = sum.plus(unit, Number(tokens[pos]->Int_0)) {
                lemma_items_within(
                    tokens,
                    Duration::after_separators(tokens, pos + 2),
                    more,
                    true,
                );
            }
        }
    }
}

/// Where a value may end, the items of a duration end too.
pub proof fn lemma_stops_where_closes(tokens: Seq<Token>, end: int)
    requires
        closes(tokens, end),
    ensures
        Duration::stops(tokens, end),
{
}

/// The tokens of the items of a duration start with an integer literal.
pub proof fn lemma_items_start_with_number(duration: Duration, k: int)
    requires
        0 <= k,
        duration.tokens_from(k).len() > 0,
    ensures
        duration.tokens_from(k).len() >= 2,
        duration.tokens_from(k)[0] is Int,
        duration.tokens_from(k)[1] is Ident,
    decreases 6 - k,
{
    if k < 6 {
        if duration.of(TimeUnit::ranked(k)).0 == 0 {
            lemma_items_start_with_number(duration, k + 1);
        }
    }
}

/// A magnitude that is not zero, of the unit of rank `k`, shows among the
/// items from every rank `from` that is not below it.
pub proof fn lemma_items_of_nonzero(duration: Duration, k: int, from: int)
    requires
        0 <= from <= k < 6,
        duration.of(TimeUnit::ranked(k)).0 != 0,
    ensures
        duration.tokens_from(from).len() > 0,
    decreases k - from,
{
    if from < k {
        lemma_items_of_nonzero(duration, k, from + 1);
    }
}

/// The items of a duration from rank `k` on are read back on top of a sum
/// that holds the magnitudes above rank `k`.
pub proof fn lemma_items_read_back(
    duration: Duration,
    k: int,
    tokens: Seq<Token>,
    pos: int,
    sum: Duration,
    any: bool,
)
    requires
        0 <= k <= 6,
        sum.covers(duration, k),
        holds(tokens, pos, duration.tokens_from(k)),
        Duration::stops(tokens, pos + duration.tokens_from(k).len()),
        any || duration.tokens_from(k).len() > 0,
    ensures
        Duration::items(tokens, pos, sum, any) == (Outcome::Done {
            value: duration,
            end: pos + duration.tokens_from(k).len(),
        }),
    decreases 6 - k,
{
    if k >= 6 {
        assert(sum.of(TimeUnit::ranked(0)) == duration.of(TimeUnit::ranked(0)));
        assert(sum.of(TimeUnit::ranked(1)) == duration.of(TimeUnit::ranked(1)));
        assert(sum.of(TimeUnit::ranked(2)) == duration.of(TimeUnit::ranked(2)));
        assert(sum.of(TimeUnit::ranked(3)) == duration.of(TimeUnit::ranked(3)));
        assert(sum.of(TimeUnit::ranked(4)) == duration.of(TimeUnit::ranked(4)));
        assert(sum.of(TimeUnit::ranked(5)) == duration.of(TimeUnit::ranked(5)));
        assert(sum == duration);
    } else {
        let unit = TimeUnit::ranked(k);
        let n = duration.of(unit).0;
        let rest = duration.tokens_from(k + 1);
        if n == 0 {
            assert(sum.covers(duration, k + 1));
            lemma_items_read_back(duration, k + 1, tokens, pos, sum, any);
        } else {
            let item = seq![Token::Int(n), Token::Ident(unit.counted(n))];
            let more = sum.with(unit, Number(n));
            assert(sum.of(unit).0 == 0);
            assert(sum.plus(unit, Number(n)) == Some(more));
            assert(more.covers(duration, k + 1)) by {
                assert forall|j: int| 0 <= j < 6 implies (#[trigger] more.of(
                    TimeUnit::ranked(j),
                )).0 == if j < k + 1 {
                    duration.of(TimeUnit::ranked(j)).0
                } else {
                    0
                } by {
                    assert(sum.of(TimeUnit::ranked(j)).0 == if j < k {
                        duration.of(TimeUnit::ranked(j)).0
                    } else {
                        0
                    });
                }
            }
            assert(TimeUnit::named(unit.counted(n)) == Some(unit));
            if rest.len() == 0 {
                assert(duration.tokens_from(k) == item);
                lemma_holds_at(tokens, pos, item, 0);
                lemma_holds_at(tokens, pos, item, 1);
                assert(Duration::after_separators(tokens, pos + 2) == pos + 2);
                assert(rest =~= Seq::<Token>::empty());
                lemma_items_read_back(duration, k + 1, tokens, pos + 2, more, true);
            } else {
                let tail = seq![Token::Punct(',')] + rest;
                assert(duration.tokens_from(k) =~= item + tail);
                lemma_holds_parts(tokens, pos, item, tail);
                lemma_holds_parts(tokens, pos + 2, seq![Token::Punct(',')], rest);
                lemma_holds_at(tokens, pos, item, 0);
                lemma_holds_at(tokens, pos, item, 1);
                lemma_holds_at(tokens, pos + 2, seq![Token::Punct(',')], 0);
                lemma_items_start_with_number(duration, k + 1);
                lemma_holds_at(tokens, pos + 3, rest, 0);
                assert(Duration::after_separators(tokens, pos + 2) == pos + 3);
                lemma_items_read_back(duration, k + 1, tokens, pos + 3, more, true);
            }
        }
    }
}

/// A duration that is not zero is read back from its canonical tokens,
/// where its items end behind them.
pub proof fn lemma_duration_reads_back(duration: Duration, tokens: Seq<Token>, pos: int)
    requires
        !duration.is_zero(),
        holds(tokens, pos, duration.tokens()),
        Duration::stops(tokens, pos + duration.tokens().len()),
    ensures
        Duration::grammar(tokens, pos) == (Outcome::Done {
            value: duration,
            end: pos + duration.tokens().len(),
        }),
{
    lemma_nonzero_has_items(duration);
    assert(Duration::zero().covers(duration, 0));
    lemma_items_read_back(duration, 0, tokens, pos, Duration::zero(), false);
}

/// A duration that is not zero has canonical tokens.
pub proof fn lemma_nonzero_has_items(duration: Duration)
    requires
        !duration.is_zero(),
    ensures
        duration.tokens().len() > 0,
{
    if duration.years.0 != 0 {
        lemma_items_of_nonzero(duration, 0, 0);
    } else if duration.months.0 != 0 {
        lemma_items_of_nonzero(duration, 1, 0);
    } else if duration.weeks.0 != 0 {
        lemma_items_of_nonzero(duration, 2, 0);
    } else if duration.days.0 != 0 {
        lemma_items_of_nonzero(duration, 3, 0);
    } else if duration.hours.0 != 0 {
        lemma_items_of_nonzero(duration, 4, 0);
    } else {
        assert(duration.minutes.0 != 0);
        lemma_items_of_nonzero(duration, 5, 0);
    }
}

} // verus!
