//! Non-negative magnitudes, as counted in a duration.

use core::cmp::Ordering;
use core::ops::{Add, Div, Mul, Sub};
use crate::canonical::{lemma_holds_at, Canonical};
use crate::cursor::Cursor;
use crate::error::ParseError;
use crate::parse::{integer, take_integer, Outcome, Parse};
use crate::text::{decimal, decimal_string};
use crate::token::Token;
use vstd::prelude::*;
use vstd::std_specs::cmp::{PartialEqSpecImpl, PartialOrdSpecImpl};
use vstd::std_specs::convert::FromSpecImpl;
use vstd::std_specs::ops::{AddSpecImpl, DivSpecImpl, MulSpecImpl, SubSpecImpl};

verus! {

/// A non-negative integer magnitude.
#[derive(Copy, Clone, Debug, PartialEq, Eq, Structural, Ord, Hash)]
pub struct Number(pub u64);

impl Parse for Number {
    open spec fn wf(self) -> bool {
        true
    }

    /// A number that fits in `u64`.
    open spec fn grammar(tokens: Seq<Token>, pos: int) -> Outcome<Number> {
        integer(tokens, pos).map(|n: u64| Number(n))
    }

    proof fn yields_within(tokens: Seq<Token>, pos: int) {
    }

    fn parse(input: &mut Cursor<'_>) -> (result: Result<Number, ParseError>) {
        let n = take_integer(input, u64::MAX)?;
        Ok(Number(n))
    }
}

impl Canonical for Number {
    open spec fn legible(self) -> bool {
        true
    }

    /// The number in decimal.
    open spec fn text(self) -> Seq<char> {
        decimal(self.0 as nat)
    }

    open spec fn tokens(self) -> Seq<Token> {
        seq![Token::Int(self.0)]
    }

    fn to_tokens(&self) -> (r: Vec<Token>) {
        vec![Token::Int(self.0)]
    }

    proof fn reads_back(self, tokens: Seq<Token>, pos: int) {
        lemma_holds_at(tokens, pos, self.tokens(), 0);
    }
}

impl Number {
    /// The canonical text.
    pub fn to_string(&self) -> (r: String)
        ensures
            r@ == self.text(),
    {
        decimal_string(self.0)
    }
}

impl From<u64> for Number {
    fn from(value: u64) -> (r: Number) {
        Number(value)
    }
}

impl FromSpecImpl<u64> for Number {
    open spec fn obeys_from_spec() -> bool {
        true
    }

    open spec fn from_spec(value: u64) -> Number {
        Number(value)
    }
}

impl From<Number> for u64 {
    fn from(value: Number) -> (r: u64) {
        value.0
    }
}

impl FromSpecImpl<Number> for u64 {
    open spec fn obeys_from_spec() -> bool {
        true
    }

    open spec fn from_spec(value: Number) -> u64 {
        value.0
    }
}

impl PartialEq<u64> for Number {
    fn eq(&self, other: &u64) -> (r: bool) {
        self.0 == *other
    }
}

impl PartialEqSpecImpl<u64> for Number {
    open spec fn obeys_eq_spec() -> bool {
        true
    }

    open spec fn eq_spec(&self, other: &u64) -> bool {
        self.0 == *other
    }
}

impl PartialOrd<u64> for Number {
    fn partial_cmp(&self, other: &u64) -> (r: Option<Ordering>) {
        if self.0 < *other {
            Some(Ordering::Less)
        } else if self.0 == *other {
            Some(Ordering::Equal)
        } else {
            Some(Ordering::Greater)
        }
    }
}

impl PartialOrdSpecImpl<u64> for Number {
    open spec fn obeys_partial_cmp_spec() -> bool {
        true
    }

    open spec fn partial_cmp_spec(&self, other: &u64) -> Option<Ordering> {
        if self.0 < *other {
            Some(Ordering::Less)
        } else if self.0 == *other {
            Some(Ordering::Equal)
        } else {
            Some(Ordering::Greater)
        }
    }
}

impl Add for Number {
    type Output = Number;

    fn add(self, rhs: Number) -> (r: Number) {
        Number(self.0 + rhs.0)
    }
}

impl AddSpecImpl for Number {
    open spec fn obeys_add_spec() -> bool {
        true
    }

    open spec fn add_req(self, rhs: Number) -> bool {
        self.0 + rhs.0 <= u64::MAX
    }

    open spec fn add_spec(self, rhs: Number) -> Number {
        Number((self.0 + rhs.0) as u64)
    }
}

impl Sub for Number {
    type Output = Number;

    fn sub(self, rhs: Number) -> (r: Number) {
        Number(self.0 - rhs.0)
    }
}

impl SubSpecImpl for Number {
    open spec fn obeys_sub_spec() -> bool {
        true
    }

    open spec fn sub_req(self, rhs: Number) -> bool {
        self.0 >= rhs.0
    }

    open spec fn sub_spec(self, rhs: Number) -> Number {
        Number((self.0 - rhs.0) as u64)
    }
}

impl Mul for Number {
    type Output = Number;

    fn mul(self, rhs: Number) -> (r: Number) {
        Number(self.0 * rhs.0)
    }
}

impl MulSpecImpl for Number {
    open spec fn obeys_mul_spec() -> bool {
        true
    }

    open spec fn mul_req(self, rhs: Number) -> bool {
        self.0 * rhs.0 <= u64::MAX
    }

    open spec fn mul_spec(self, rhs: Number) -> Number {
        Number((self.0 * rhs.0) as u64)
    }
}

impl Div for Number {
    type Output = Number;

    fn div(self, rhs: Number) -> (r: Number) {
        Number(self.0 / rhs.0)
    }
}

impl DivSpecImpl for Number {
    open spec fn obeys_div_spec() -> bool {
        true
    }

    open spec fn div_req(self, rhs: Number) -> bool {
        rhs.0 != 0
    }

    open spec fn div_spec(self, rhs: Number) -> Number {
        Number(self.0 / rhs.0)
    }
}

} // verus!
