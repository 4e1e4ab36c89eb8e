//! The one failure a parse can end in.

use vstd::prelude::*;

verus! {

/// What a parse wanted to find where it stopped.
#[derive(Copy, Clone, Debug, PartialEq, Eq, Structural, Hash)]
pub enum Expected {
    /// Text that can be split into tokens.
    Tokens,
    /// The end of the input.
    End,
    /// Any identifier.
    Identifier,
    /// Any integer literal.
    Integer,
    /// The punctuation `/`.
    Slash,
    /// The punctuation `:`.
    Colon,
    /// An integer literal or an identifier, at the start of an expression.
    NumberOrKeyword,
    /// The word `from`.
    From,
    /// The word `to`.
    To,
    /// The word `at`.
    At,
    /// The word `now`.
    Now,
    /// The word `yesterday`.
    Yesterday,
    /// The word `tomorrow`.
    Tomorrow,
    /// One of `before` and `after`.
    BeforeOrAfter,
    /// One of `AM` and `PM`.
    Meridiem,
    /// A number followed by a unit of time.
    DurationItem,
    /// A unit of time.
    TimeUnit,
    /// A unit that `next` and `last` apply to.
    RelativeUnit,
    /// A word that starts a named relative time.
    NamedTime,
    /// One of `after`, `before`, `ago` and `from`.
    Direction,
    /// A number small enough for the field it fills.
    Fit,
    /// A day of the month from 1 to 31.
    Day,
    /// A month from 1 to 12.
    Month,
    /// An hour from 1 to 12, before a meridiem.
    Hour12,
    /// An hour from 0 to 24.
    Hour24,
    /// A minute from 0 to 60.
    Minute,
}

impl Expected {
    /// Whether the failure is a well-formed integer outside the bounds of its
    /// field, rather than a token of the wrong kind.
    pub open spec fn range_violation(self) -> bool {
        self is Fit || self is Day || self is Month || self is Hour12 || self is Hour24
            || self is Minute
    }

    /// Whether the failure is a well-formed integer outside the bounds of its
    /// field, rather than a token of the wrong kind.
    pub fn is_range_violation(self) -> (r: bool)
        ensures
            r == self.range_violation(),
    {
        match self {
            Expected::Fit
            | Expected::Day
            | Expected::Month
            | Expected::Hour12
            | Expected::Hour24
            | Expected::Minute => true,
            _ => false,
        }
    }

    /// The message shown for the expectation.
    pub open spec fn message_text(self) -> Seq<char> {
        match self {
            Expected::Tokens => "cannot parse string into token stream"@,
            Expected::End => "unexpected token"@,
            Expected::Identifier => "expected identifier"@,
            Expected::Integer => "expected integer literal"@,
            Expected::Slash => "expected `/`"@,
            Expected::Colon => "expected `:`"@,
            Expected::NumberOrKeyword => "expected [number] or [keyword]"@,
            Expected::From => "expected `from`"@,
            Expected::To => "expected `to`"@,
            Expected::At => "expected `at`"@,
            Expected::Now => "expected `now`"@,
            Expected::Yesterday => "expected `yesterday`"@,
            Expected::Tomorrow => "expected `tomorrow`"@,
            Expected::BeforeOrAfter => "expected `before` or `after`"@,
            Expected::Meridiem => "expected `AM` or `PM`"@,
            Expected::DurationItem =>
                "expected [number] followed by one of `minutes`, `hours`, `days`, `years`"@,
            Expected::TimeUnit =>
                "expected one of `minutes`, `hours`, `days`, `weeks`, `months`, and `years`"@,
            Expected::RelativeUnit =>
                "expected one of `week`, `month`, `year`, `monday`, `tuesday`, `wednesday`, `thursday`, `friday`, `saturday` or `sunday`"@,
            Expected::NamedTime =>
                "expected one of `day`, `now`, `today`, `tomorrow`, `yesterday`, `the`"@,
            Expected::Direction => "expected one of `after`, `before`, `ago`, `from`"@,
            Expected::Fit => "number too large to fit in target type"@,
            Expected::Day => "day must be between 1 and 31 (inclusive)"@,
            Expected::Month => "month must be between 1 and 12 (inclusive)"@,
            Expected::Hour12 => "hour must be between 1 and 12 (inclusive)"@,
            Expected::Hour24 => "hour must be between 0 and 24 (inclusive)"@,
            Expected::Minute => "minute must be between 0 and 60 (inclusive)"@,
        }
    }

    /// The message shown for the expectation.
    pub fn message(self) -> (r: &'static str)
        ensures
            r@ == self.message_text(),
    {
        match self {
            Expected::Tokens => "cannot parse string into token stream",
            Expected::End => "unexpected token",
            Expected::Identifier => "expected identifier",
            Expected::Integer => "expected integer literal",
            Expected::Slash => "expected `/`",
            Expected::Colon => "expected `:`",
            Expected::NumberOrKeyword => "expected [number] or [keyword]",
            Expected::From => "expected `from`",
            Expected::To => "expected `to`",
            Expected::At => "expected `at`",
            Expected::Now => "expected `now`",
            Expected::Yesterday => "expected `yesterday`",
            Expected::Tomorrow => "expected `tomorrow`",
            Expected::BeforeOrAfter => "expected `before` or `after`",
            Expected::Meridiem => "expected `AM` or `PM`",
            Expected::DurationItem =>
                "expected [number] followed by one of `minutes`, `hours`, `days`, `years`",
            Expected::TimeUnit =>
                "expected one of `minutes`, `hours`, `days`, `weeks`, `months`, and `years`",
            Expected::RelativeUnit =>
                "expected one of `week`, `month`, `year`, `monday`, `tuesday`, `wednesday`, `thursday`, `friday`, `saturday` or `sunday`",
            Expected::NamedTime =>
                "expected one of `day`, `now`, `today`, `tomorrow`, `yesterday`, `the`",
            Expected::Direction => "expected one of `after`, `before`, `ago`, `from`",
            Expected::Fit => "number too large to fit in target type",
            Expected::Day => "day must be between 1 and 31 (inclusive)",
            Expected::Month => "month must be between 1 and 12 (inclusive)",
            Expected::Hour12 => "hour must be between 1 and 12 (inclusive)",
            Expected::Hour24 => "hour must be between 0 and 24 (inclusive)",
            Expected::Minute => "minute must be between 0 and 60 (inclusive)",
        }
    }
}

/// A failed parse: the index of the offending token in the input, and what
/// was expected there. An index equal to the number of tokens stands for the
/// end of the input.
#[derive(Copy, Clone, Debug, PartialEq, Eq, Structural, Hash)]
pub struct ParseError {
    /// The index of the offending token.
    pub position: usize,
    /// What was expected at that token.
    pub expected: Expected,
}

impl ParseError {
    /// The message shown for the failure.
    pub fn message(&self) -> (r: &'static str)
        ensures
            r@ == self.expected.message_text(),
    {
        self.expected.message()
    }
}

} // verus!
