//! From text to tokens. Splitting text into lexemes, telling identifiers
//! from reserved words and reading integer literals are the work of the
//! `syn` and `proc-macro2` crates; what each lexeme means to the grammar is
//! decided here.

use crate::text::{decimal, digit};
use crate::token::{Token, Word};
use proc_macro2::{TokenStream, TokenTree};
use vstd::prelude::*;
use vstd::string::StrSliceExecFns;

verus! {

/// A piece of text as the lexer hands it out.
#[derive(Debug)]
pub enum Lexeme {
    /// An identifier or a reserved word, as written.
    Ident(String),
    /// A literal of any kind, as written.
    Literal(String),
    /// A punctuation character.
    Punct(char),
    /// A bracketed group.
    Group,
}

/// The mathematical value of a [`Lexeme`].
pub enum LexemeView {
    Ident(Seq<char>),
    Literal(Seq<char>),
    Punct(char),
    Group,
}

impl View for Lexeme {
    type V = LexemeView;

    open spec fn view(&self) -> LexemeView {
        match self {
            Lexeme::Ident(text) => LexemeView::Ident(text@),
            Lexeme::Literal(text) => LexemeView::Literal(text@),
            Lexeme::Punct(mark) => LexemeView::Punct(*mark),
            Lexeme::Group => LexemeView::Group,
        }
    }
}

/// The lexemes that `text` splits into, or `None` where it does not lex.
pub uninterp spec fn lexed(text: Seq<char>) -> Option<Seq<LexemeView>>;

/// The lower-case form of `text`.
pub uninterp spec fn lowercased(text: Seq<char>) -> Seq<char>;

/// Whether `text` is an identifier and no reserved word.
pub uninterp spec fn is_identifier(text: Seq<char>) -> bool;

/// The value of the integer literal `text` in decimal digits, or `None`
/// where `text` is no integer literal.
pub uninterp spec fn literal_digits(text: Seq<char>) -> Option<Seq<char>>;

/// The views of a sequence of lexemes.
pub open spec fn views(lexemes: Seq<Lexeme>) -> Seq<LexemeView> {
    lexemes.map_values(|lexeme: Lexeme| lexeme@)
}

/// Whether `text` is a non-empty run of decimal digits.
pub open spec fn is_digits(text: Seq<char>) -> bool {
    &&& text.len() > 0
    &&& forall|i: int| 0 <= i < text.len() ==> '0' <= #[trigger] text[i] <= '9'
}

/// The number that a run of decimal digits spells.
pub open spec fn digits_value(text: Seq<char>) -> nat
    decreases text.len(),
{
    if text.len() == 0 {
        0
    } else {
        digits_value(text.drop_last()) * 10 + (text.last() as nat - '0' as nat) as nat
    }
}

/// The number that `text` spells as an unsigned decimal: a run of digits,
/// which a single `+` may precede.
pub open spec fn unsigned(text: Seq<char>) -> Option<nat> {
    let digits = if text.len() > 0 && text[0] == '+' {
        text.skip(1)
    } else {
        text
    };
    if is_digits(digits) {
        Some(digits_value(digits))
    } else {
        None
    }
}

/// The number that `text` spells as an unsigned decimal, where it fits.
pub open spec fn unsigned_u64(text: Seq<char>) -> Option<u64> {
    match unsigned(text) {
        Some(value) if value <= u64::MAX => Some(value as u64),
        _ => None,
    }
}

/// Splits `text` with `syn::parse_str` into a `proc_macro2::TokenStream` and
/// hands out its trees one for one, each with its text: the lexemes are a
/// function of the text alone.
#[verifier::external_body]
fn lex(text: &str) -> (r: Option<Vec<Lexeme>>)
    ensures
        match r {
            Some(lexemes) => lexed(text@) == Some(views(lexemes@)),
            None => lexed(text@) is None,
        },
{
    let stream = syn::parse_str::<TokenStream>(text).ok()?;
    let mut lexemes = Vec::new();
    for tree in stream {
        lexemes.push(match tree {
            TokenTree::Ident(ident) => Lexeme::Ident(ident.to_string()),
            TokenTree::Literal(literal) => Lexeme::Literal(literal.to_string()),
            TokenTree::Punct(punct) => Lexeme::Punct(punct.as_char()),
            TokenTree::Group(_) => Lexeme::Group,
        });
    }
    Some(lexemes)
}

/// std's `str::to_lowercase`: the result is a function of the text alone.
#[verifier::external_body]
fn lowercase(text: &str) -> (r: String)
    ensures
        r@ == lowercased(text@),
{
    text.to_lowercase()
}

/// Whether `syn::parse_str` reads `text` as a `syn::Ident`, which it does
/// for an identifier that is no reserved word.
#[verifier::external_body]
fn accepts_identifier(text: &str) -> (r: bool)
    ensures
        r == is_identifier(text@),
{
    syn::parse_str::<syn::Ident>(text).is_ok()
}

/// Reads `text` with `syn::parse_str` as a `syn::LitInt` and hands out its
/// `base10_digits`.
#[verifier::external_body]
fn integer_digits(text: &str) -> (r: Option<String>)
    ensures
        match r {
            Some(digits) => literal_digits(text@) == Some(digits@),
            None => literal_digits(text@) is None,
        },
{
    match syn::parse_str::<syn::LitInt>(text) {
        Ok(literal) => Some(literal.base10_digits().to_string()),
        Err(_) => None,
    }
}

/// std's `str::parse` for `u64`, which reads a run of decimal digits that a
/// single `+` may precede, and fails on anything else and on a number beyond
/// `u64`.
#[verifier::external_body]
fn parse_u64(text: &str) -> (r: Option<u64>)
    ensures
        r == unsigned_u64(text@),
{
    text.parse::<u64>().ok()
}

/// Whether two texts are the same.
pub fn same_text(a: &str, b: &str) -> (r: bool)
    ensures
        r == (a@ == b@),
{
    let n = a.unicode_len();
    if n != b.unicode_len() {
        return false;
    }
    let mut i: usize = 0;
    while i < n
        invariant
            n == a@.len(),
            n == b@.len(),
            i <= n,
            forall|j: int| 0 <= j < i ==> a@[j] == b@[j],
        decreases n - i,
    {
        if a.get_char(i) != b.get_char(i) {
            return false;
        }
        i = i + 1;
    }
    assert(a@ =~= b@);
    true
}

impl Word {
    /// The word that the lower-case text `lower` spells.
    pub open spec fn spelled(lower: Seq<char>) -> Word {
        if lower == "mins"@ {
            Word::Mins
        } else if lower == "minutes"@ {
            Word::Minutes
        } else if lower == "minute"@ {
            Word::Minute
        } else if lower == "min"@ {
            Word::Min
        } else if lower == "hours"@ {
            Word::Hours
        } else if lower == "hrs"@ {
            Word::Hrs
        } else if lower == "hour"@ {
            Word::Hour
        } else if lower == "hr"@ {
            Word::Hr
        } else if lower == "days"@ {
            Word::Days
        } else if lower == "day"@ {
            Word::Day
        } else if lower == "weeks"@ {
            Word::Weeks
        } else if lower == "week"@ {
            Word::Week
        } else if lower == "months"@ {
            Word::Months
        } else if lower == "month"@ {
            Word::Month
        } else if lower == "years"@ {
            Word::Years
        } else if lower == "yr"@ {
            Word::Yr
        } else if lower == "year"@ {
            Word::Year
        } else if lower == "monday"@ {
            Word::Monday
        } else if lower == "tuesday"@ {
            Word::Tuesday
        } else if lower == "wednesday"@ {
            Word::Wednesday
        } else if lower == "thursday"@ {
            Word::Thursday
        } else if lower == "friday"@ {
            Word::Friday
        } else if lower == "saturday"@ {
            Word::Saturday
        } else if lower == "sunday"@ {
            Word::Sunday
        } else if lower == "now"@ {
            Word::Now
        } else if lower == "today"@ {
            Word::Today
        } else if lower == "tomorrow"@ {
            Word::Tomorrow
        } else if lower == "yesterday"@ {
            Word::Yesterday
        } else if lower == "the"@ {
            Word::The
        } else if lower == "after"@ {
            Word::After
        } else if lower == "before"@ {
            Word::Before
        } else if lower == "ago"@ {
            Word::Ago
        } else if lower == "from"@ {
            Word::From
        } else if lower == "next"@ {
            Word::Next
        } else if lower == "last"@ {
            Word::Last
        } else if lower == "to"@ {
            Word::To
        } else if lower == "at"@ {
            Word::At
        } else if lower == "and"@ {
            Word::And
        } else if lower == "am"@ {
            Word::Am
        } else if lower == "pm"@ {
            Word::Pm
        } else {
            Word::Other
        }
    }

    /// The word that the lower-case text `lower` spells.
    pub fn lookup(lower: &str) -> (r: Word)
        ensures
            r == Word::spelled(lower@),
    {
        if same_text(lower, "mins") {
            Word::Mins
        } else if same_text(lower, "minutes") {
            Word::Minutes
        } else if same_text(lower, "minute") {
            Word::Minute
        } else if same_text(lower, "min") {
            Word::Min
        } else if same_text(lower, "hours") {
            Word::Hours
        } else if same_text(lower, "hrs") {
            Word::Hrs
        } else if same_text(lower, "hour") {
            Word::Hour
        } else if same_text(lower, "hr") {
            Word::Hr
        } else if same_text(lower, "days") {
            Word::Days
        } else if same_text(lower, "day") {
            Word::Day
        } else if same_text(lower, "weeks") {
            Word::Weeks
        } else if same_text(lower, "week") {
            Word::Week
        } else if same_text(lower, "months") {
            Word::Months
        } else if same_text(lower, "month") {
            Word::Month
        } else if same_text(lower, "years") {
            Word::Years
        } else if same_text(lower, "yr") {
            Word::Yr
        } else if same_text(lower, "year") {
            Word::Year
        } else if same_text(lower, "monday") {
            Word::Monday
        } else if same_text(lower, "tuesday") {
            Word::Tuesday
        } else if same_text(lower, "wednesday") {
            Word::Wednesday
        } else if same_text(lower, "thursday") {
            Word::Thursday
        } else if same_text(lower, "friday") {
            Word::Friday
        } else if same_text(lower, "saturday") {
            Word::Saturday
        } else if same_text(lower, "sunday") {
            Word::Sunday
        } else if same_text(lower, "now") {
            Word::Now
        } else if same_text(lower, "today") {
            Word::Today
        } else if same_text(lower, "tomorrow") {
            Word::Tomorrow
        } else if same_text(lower, "yesterday") {
            Word::Yesterday
        } else if same_text(lower, "the") {
            Word::The
        } else if same_text(lower, "after") {
            Word::After
        } else if same_text(lower, "before") {
            Word::Before
        } else if same_text(lower, "ago") {
            Word::Ago
        } else if same_text(lower, "from") {
            Word::From
        } else if same_text(lower, "next") {
            Word::Next
        } else if same_text(lower, "last") {
            Word::Last
        } else if same_text(lower, "to") {
            Word::To
        } else if same_text(lower, "at") {
            Word::At
        } else if same_text(lower, "and") {
            Word::And
        } else if same_text(lower, "am") {
            Word::Am
        } else if same_text(lower, "pm") {
            Word::Pm
        } else {
            Word::Other
        }
    }
}

impl Token {
    /// The token for an identifier: `accepted` tells whether it is one and
    /// no reserved word, `lower` is its text in lower case.
    pub open spec fn of_ident(accepted: bool, lower: Seq<char>) -> Token {
        if accepted {
            Token::Ident(Word::spelled(lower))
        } else {
            Token::Other
        }
    }

    /// The token for a literal: `digits` holds its value in decimal where it
    /// is an integer literal.
    pub open spec fn of_literal(digits: Option<Seq<char>>) -> Token {
        match digits {
            Some(digits) => match unsigned_u64(digits) {
                Some(value) => Token::Int(value),
                None => Token::BigInt,
            },
            None => Token::Other,
        }
    }

    /// The token that a lexeme stands for.
    pub open spec fn of(lexeme: LexemeView) -> Token {
        match lexeme {
            LexemeView::Ident(text) => Token::of_ident(is_identifier(text), lowercased(text)),
            LexemeView::Literal(text) => Token::of_literal(literal_digits(text)),
            LexemeView::Punct(mark) => Token::Punct(mark),
            LexemeView::Group => Token::Other,
        }
    }

    /// The token for an identifier: `accepted` tells whether it is one and
    /// no reserved word, `lower` is its text in lower case.
    pub fn from_ident(accepted: bool, lower: &str) -> (r: Token)
        ensures
            r == Token::of_ident(accepted, lower@),
    {
        if accepted {
            Token::Ident(Word::lookup(lower))
        } else {
            Token::Other
        }
    }

    /// The token for a literal: `digits` holds its value in decimal where it
    /// is an integer literal.
    pub fn from_digits(digits: Option<&str>) -> (r: Token)
        ensures
            r == Token::of_literal(
                match digits {
                    Some(digits) => Some(digits@),
                    None => None,
                },
            ),
    {
        match digits {
            Some(digits) => match parse_u64(digits) {
                Some(value) => Token::Int(value),
                None => Token::BigInt,
            },
            None => Token::Other,
        }
    }

    /// The token that a lexeme stands for.
    pub fn from_lexeme(lexeme: &Lexeme) -> (r: Token)
        ensures
            r == Token::of(lexeme@),
    {
        match lexeme {
            Lexeme::Ident(text) => {
                let accepted = accepts_identifier(text.as_str());
                let lower = lowercase(text.as_str());
                Token::from_ident(accepted, lower.as_str())
            },
            Lexeme::Literal(text) => match integer_digits(text.as_str()) {
                Some(digits) => Token::from_digits(Some(digits.as_str())),
                None => Token::from_digits(None),
            },
            Lexeme::Punct(mark) => Token::Punct(*mark),
            Lexeme::Group => Token::Other,
        }
    }
}

/// The tokens that `text` holds, or `None` where it does not lex.
pub open spec fn tokens_of(text: Seq<char>) -> Option<Seq<Token>> {
    match lexed(text) {
        Some(lexemes) => Some(lexemes.map_values(|lexeme: LexemeView| Token::of(lexeme))),
        None => None,
    }
}

/// Splits `text` into tokens, or returns `None` where it does not lex.
pub fn tokenize(text: &str) -> (r: Option<Vec<Token>>)
    ensures
        match r {
            Some(tokens) => tokens_of(text@) == Some(tokens@),
            None => tokens_of(text@) is None,
        },
{
    match lex(text) {
        None => None,
        Some(lexemes) => {
            let mut tokens: Vec<Token> = Vec::new();
            let mut i: usize = 0;
            while i < lexemes.len()
                invariant
                    i <= lexemes.len(),
                    tokens.len() == i,
                    forall|j: int| 0 <= j < i ==> tokens[j] == Token::of(lexemes[j]@),
                decreases lexemes.len() - i,
            {
                tokens.push(Token::from_lexeme(&lexemes[i]));
                i = i + 1;
            }
            assert(tokens@ =~= views(lexemes@).map_values(|lexeme: LexemeView| Token::of(lexeme)));
            Some(tokens)
        },
    }
}

/// The decimal spelling of a number is a run of digits with the number for
/// its value.
pub proof fn lemma_decimal_is_digits(n: nat)
    ensures
        is_digits(decimal(n)),
        digits_value(decimal(n)) == n,
    decreases n,
{
    if n < 10 {
        assert(decimal(n).drop_last() =~= Seq::<char>::empty());
        assert(digits_value(decimal(n).drop_last()) == 0);
    } else {
        lemma_decimal_is_digits(n / 10);
        assert(decimal(n).drop_last() =~= decimal(n / 10));
        assert(decimal(n).last() == digit(n % 10));
    }
}

/// The decimal spelling of a number reads back as that number.
pub proof fn law_decimal_reads_back(n: nat)
    ensures
        unsigned(decimal(n)) == Some(n),
{
    lemma_decimal_is_digits(n);
}

} // verus!
