//! The order of values: structural, by the declared order of variants and
//! fields. It says nothing of which point in time comes first.

use crate::absolute::{AbsoluteTime, Date, DateTime, Time};
use crate::duration::Duration;
use crate::expression::{PointInTime, TimeExpression, TimeRange};
use crate::fields::{AmPm, DayOfMonth, Hour, Minute, Month, RelativeTimeUnit, TimeUnit, Year};
use crate::number::Number;
use crate::relative::{NamedRelativeTime, RelativeTime, TimeDirection};
use core::cmp::Ordering;
use vstd::prelude::*;
use vstd::std_specs::cmp::PartialOrdSpecImpl;

verus! {

/// How one value stands to another.
#[derive(Copy, Clone, Debug, PartialEq, Eq, Structural, Hash)]
pub enum Order {
    Less,
    Equal,
    Greater,
}

impl Order {
    /// How the integer `a` stands to `b`.
    pub open spec fn of(a: int, b: int) -> Order {
        if a < b {
            Order::Less
        } else if a == b {
            Order::Equal
        } else {
            Order::Greater
        }
    }

    /// This order where it decides, else `next`: the order of two values by
    /// one field and then by another.
    pub open spec fn or(self, next: Order) -> Order {
        if self is Equal {
            next
        } else {
            self
        }
    }

    /// How the integer `a` stands to `b`.
    pub fn compare(a: u64, b: u64) -> (r: Order)
        ensures
            r == Order::of(a as int, b as int),
    {
        if a < b {
            Order::Less
        } else if a == b {
            Order::Equal
        } else {
            Order::Greater
        }
    }

    /// This order where it decides, else `next`.
    pub fn or_else(self, next: Order) -> (r: Order)
        ensures
            r == self.or(next),
    {
        match self {
            Order::Equal => next,
            decided => decided,
        }
    }

    /// The same order in the words of std.
    pub open spec fn standard(self) -> Ordering {
        match self {
            Order::Less => Ordering::Less,
            Order::Equal => Ordering::Equal,
            Order::Greater => Ordering::Greater,
        }
    }

    /// The same order in the words of std.
    pub fn to_std(self) -> (r: Ordering)
        ensures
            r == self.standard(),
    {
        match self {
            Order::Less => Ordering::Less,
            Order::Equal => Ordering::Equal,
            Order::Greater => Ordering::Greater,
        }
    }
}

/// A type whose values stand in the structural order.
pub trait Ordered: Sized {
    /// How the value stands to `other`: by the first variant or field, in
    /// their declared order, in which the two differ.
    spec fn order(&self, other: &Self) -> Order;

    /// How the value stands to `other`.
    fn compare(&self, other: &Self) -> (r: Order)
        ensures
            r == self.order(other),
    ;
}

impl Ordered for Number {
    open spec fn order(&self, other: &Number) -> Order {
        Order::of(self.0 as int, other.0 as int)
    }

    fn compare(&self, other: &Number) -> (r: Order) {
        Order::compare(self.0, other.0)
    }
}

impl PartialOrd for Number {
    fn partial_cmp(&self, other: &Number) -> (r: Option<Ordering>) {
        Some(self.compare(other).to_std())
    }
}

impl PartialOrdSpecImpl for Number {
    open spec fn obeys_partial_cmp_spec() -> bool {
        true
    }

    open spec fn partial_cmp_spec(&self, other: &Number) -> Option<Ordering> {
        Some(self.order(other).standard())
    }
}

impl Ordered for DayOfMonth {
    open spec fn order(&self, other: &DayOfMonth) -> Order {
        Order::of(self.0 as int, other.0 as int)
    }

    fn compare(&self, other: &DayOfMonth) -> (r: Order) {
        Order::compare(self.0 as u64, other.0 as u64)
    }
}

impl PartialOrd for DayOfMonth {
    fn partial_cmp(&self, other: &DayOfMonth) -> (r: Option<Ordering>) {
        Some(self.compare(other).to_std())
    }
}

impl PartialOrdSpecImpl for DayOfMonth {
    open spec fn obeys_partial_cmp_spec() -> bool {
        true
    }

    open spec fn partial_cmp_spec(&self, other: &DayOfMonth) -> Option<Ordering> {
        Some(self.order(other).standard())
    }
}

impl Ordered for Year {
    open spec fn order(&self, other: &Year) -> Order {
        Order::of(self.0 as int, other.0 as int)
    }

    fn compare(&self, other: &Year) -> (r: Order) {
        Order::compare(self.0 as u64, other.0 as u64)
    }
}

impl PartialOrd for Year {
    fn partial_cmp(&self, other: &Year) -> (r: Option<Ordering>) {
        Some(self.compare(other).to_std())
    }
}

impl PartialOrdSpecImpl for Year {
    open spec fn obeys_partial_cmp_spec() -> bool {
        true
    }

    open spec fn partial_cmp_spec(&self, other: &Year) -> Option<Ordering> {
        Some(self.order(other).standard())
    }
}

impl Ordered for Minute {
    open spec fn order(&self, other: &Minute) -> Order {
        Order::of(self.0 as int, other.0 as int)
    }

    fn compare(&self, other: &Minute) -> (r: Order) {
        Order::compare(self.0 as u64, other.0 as u64)
    }
}

impl PartialOrd for Minute {
    fn partial_cmp(&self, other: &Minute) -> (r: Option<Ordering>) {
        Some(self.compare(other).to_std())
    }
}

impl PartialOrdSpecImpl for Minute {
    open spec fn obeys_partial_cmp_spec() -> bool {
        true
    }

    open spec fn partial_cmp_spec(&self, other: &Minute) -> Option<Ordering> {
        Some(self.order(other).standard())
    }
}

impl Ordered for Month {
    open spec fn order(&self, other: &Month) -> Order {
        Order::of(self.number() as int, other.number() as int)
    }

    fn compare(&self, other: &Month) -> (r: Order) {
        Order::compare(self.to_number() as u64, other.to_number() as u64)
    }
}

impl PartialOrd for Month {
    fn partial_cmp(&self, other: &Month) -> (r: Option<Ordering>) {
        Some(self.compare(other).to_std())
    }
}

impl PartialOrdSpecImpl for Month {
    open spec fn obeys_partial_cmp_spec() -> bool {
        true
    }

    open spec fn partial_cmp_spec(&self, other: &Month) -> Option<Ordering> {
        Some(self.order(other).standard())
    }
}

impl AmPm {
    /// The place of the half among the two, as they are declared.
    pub open spec fn index(self) -> int {
        match self {
            AmPm::AM => 0,
            AmPm::PM => 1,
        }
    }

    /// The place of the half among the two, as they are declared.
    pub fn to_index(&self) -> (r: u8)
        ensures
            r == self.index(),
    {
        match self {
            AmPm::AM => 0,
            AmPm::PM => 1,
        }
    }
}

impl Ordered for AmPm {
    open spec fn order(&self, other: &AmPm) -> Order {
        Order::of(self.index(), other.index())
    }

    fn compare(&self, other: &AmPm) -> (r: Order) {
        Order::compare(self.to_index() as u64, other.to_index() as u64)
    }
}

impl PartialOrd for AmPm {
    fn partial_cmp(&self, other: &AmPm) -> (r: Option<Ordering>) {
        Some(self.compare(other).to_std())
    }
}

impl PartialOrdSpecImpl for AmPm {
    open spec fn obeys_partial_cmp_spec() -> bool {
        true
    }

    open spec fn partial_cmp_spec(&self, other: &AmPm) -> Option<Ordering> {
        Some(self.order(other).standard())
    }
}

impl TimeUnit {
    /// The place of the unit among the six, as they are declared.
    pub open spec fn index(self) -> int {
        match self {
            TimeUnit::Minutes => 0,
            TimeUnit::Hours => 1,
            TimeUnit::Days => 2,
            TimeUnit::Weeks => 3,
            TimeUnit::Months => 4,
            TimeUnit::Years => 5,
        }
    }

    /// The place of the unit among the six, as they are declared.
    pub fn to_index(&self) -> (r: u8)
        ensures
            r == self.index(),
    {
        match self {
            TimeUnit::Minutes => 0,
            TimeUnit::Hours => 1,
            TimeUnit::Days => 2,
            TimeUnit::Weeks => 3,
            TimeUnit::Months => 4,
            TimeUnit::Years => 5,
        }
    }
}

impl Ordered for TimeUnit {
    open spec fn order(&self, other: &TimeUnit) -> Order {
        Order::of(self.index(), other.index())
    }

    fn compare(&self, other: &TimeUnit) -> (r: Order) {
        Order::compare(self.to_index() as u64, other.to_index() as u64)
    }
}

impl PartialOrd for TimeUnit {
    fn partial_cmp(&self, other: &TimeUnit) -> (r: Option<Ordering>) {
        Some(self.compare(other).to_std())
    }
}

impl PartialOrdSpecImpl for TimeUnit {
    open spec fn obeys_partial_cmp_spec() -> bool {
        true
    }

    open spec fn partial_cmp_spec(&self, other: &TimeUnit) -> Option<Ordering> {
        Some(self.order(other).standard())
    }
}

impl RelativeTimeUnit {
    /// The place of the unit among the ten, as they are declared.
    pub open spec fn index(self) -> int {
        match self {
            RelativeTimeUnit::Week => 0,
            RelativeTimeUnit::Month => 1,
            RelativeTimeUnit::Year => 2,
            RelativeTimeUnit::Monday => 3,
            RelativeTimeUnit::Tuesday => 4,
            RelativeTimeUnit::Wednesday => 5,
            RelativeTimeUnit::Thursday => 6,
            RelativeTimeUnit::Friday => 7,
            RelativeTimeUnit::Saturday => 8,
            RelativeTimeUnit::Sunday => 9,
        }
    }

    /// The place of the unit among the ten, as they are declared.
    pub fn to_index(&self) -> (r: u8)
        ensures
            r == self.index(),
    {
        match self {
            RelativeTimeUnit::Week => 0,
            RelativeTimeUnit::Month => 1,
            RelativeTimeUnit::Year => 2,
            RelativeTimeUnit::Monday => 3,
            RelativeTimeUnit::Tuesday => 4,
            RelativeTimeUnit::Wednesday => 5,
            RelativeTimeUnit::Thursday => 6,
            RelativeTimeUnit::Friday => 7,
            RelativeTimeUnit::Saturday => 8,
            RelativeTimeUnit::Sunday => 9,
        }
    }
}

impl Ordered for RelativeTimeUnit {
    open spec fn order(&self, other: &RelativeTimeUnit) -> Order {
        Order::of(self.index(), other.index())
    }

    fn compare(&self, other: &RelativeTimeUnit) -> (r: Order) {
        Order::compare(self.to_index() as u64, other.to_index() as u64)
    }
}

impl PartialOrd for RelativeTimeUnit {
    fn partial_cmp(&self, other: &RelativeTimeUnit) -> (r: Option<Ordering>) {
        Some(self.compare(other).to_std())
    }
}

impl PartialOrdSpecImpl for RelativeTimeUnit {
    open spec fn obeys_partial_cmp_spec() -> bool {
        true
    }

    open spec fn partial_cmp_spec(&self, other: &RelativeTimeUnit) -> Option<Ordering> {
        Some(self.order(other).standard())
    }
}

impl NamedRelativeTime {
    /// The place of the name among the six, as they are declared.
    pub open spec fn index(self) -> int {
        match self {
            NamedRelativeTime::Now => 0,
            NamedRelativeTime::Today => 1,
            NamedRelativeTime::Tomorrow => 2,
            NamedRelativeTime::Yesterday => 3,
            NamedRelativeTime::DayAfterTomorrow => 4,
            NamedRelativeTime::DayBeforeYesterday => 5,
        }
    }

    /// The place of the name among the six, as they are declared.
    pub fn to_index(&self) -> (r: u8)
        ensures
            r == self.index(),
    {
        match self {
            NamedRelativeTime::Now => 0,
            NamedRelativeTime::Today => 1,
            NamedRelativeTime::Tomorrow => 2,
            NamedRelativeTime::Yesterday => 3,
            NamedRelativeTime::DayAfterTomorrow => 4,
            NamedRelativeTime::DayBeforeYesterday => 5,
        }
    }
}

impl Ordered for NamedRelativeTime {
    open spec fn order(&self, other: &NamedRelativeTime) -> Order {
        Order::of(self.index(), other.index())
    }

    fn compare(&self, other: &NamedRelativeTime) -> (r: Order) {
        Order::compare(self.to_index() as u64, other.to_index() as u64)
    }
}

impl PartialOrd for NamedRelativeTime {
    fn partial_cmp(&self, other: &NamedRelativeTime) -> (r: Option<Ordering>) {
        Some(self.compare(other).to_std())
    }
}

impl PartialOrdSpecImpl for NamedRelativeTime {
    open spec fn obeys_partial_cmp_spec() -> bool {
        true
    }

    open spec fn partial_cmp_spec(&self, other: &NamedRelativeTime) -> Option<Ordering> {
        Some(self.order(other).standard())
    }
}

impl Ordered for Hour {
    open spec fn order(&self, other: &Hour) -> Order {
        match (*self, *other) {
            (Hour::Hour12(a, half), Hour::Hour12(b, other_half)) => Order::of(
                a as int,
                b as int,
            ).or(half.order(&other_half)),
            (Hour::Hour12(..), Hour::Hour24(_)) => Order::Less,
            (Hour::Hour24(_), Hour::Hour12(..)) => Order::Greater,
            (Hour::Hour24(a), Hour::Hour24(b)) => Order::of(a as int, b as int),
        }
    }

    fn compare(&self, other: &Hour) -> (r: Order) {
        match (self, other) {
            (Hour::Hour12(a, half), Hour::Hour12(b, other_half)) => Order::compare(
                *a as u64,
                *b as u64,
            ).or_else(half.compare(other_half)),
            (Hour::Hour12(..), Hour::Hour24(_)) => Order::Less,
            (Hour::Hour24(_), Hour::Hour12(..)) => Order::Greater,
            (Hour::Hour24(a), Hour::Hour24(b)) => Order::compare(*a as u64, *b as u64),
        }
    }
}

impl PartialOrd for Hour {
    fn partial_cmp(&self, other: &Hour) -> (r: Option<Ordering>) {
        Some(self.compare(other).to_std())
    }
}

impl PartialOrdSpecImpl for Hour {
    open spec fn obeys_partial_cmp_spec() -> bool {
        true
    }

    open spec fn partial_cmp_spec(&self, other: &Hour) -> Option<Ordering> {
        Some(self.order(other).standard())
    }
}

impl Ordered for Date {
    open spec fn order(&self, other: &Date) -> Order {
        self.0.order(&other.0).or(self.1.order(&other.1)).or(self.2.order(&other.2))
    }

    fn compare(&self, other: &Date) -> (r: Order) {
        let order = self.0.compare(&other.0);
        let order = order.or_else(self.1.compare(&other.1));
        let order = order.or_else(self.2.compare(&other.2));
        order
    }
}

impl PartialOrd for Date {
    fn partial_cmp(&self, other: &Date) -> (r: Option<Ordering>) {
        Some(self.compare(other).to_std())
    }
}

impl PartialOrdSpecImpl for Date {
    open spec fn obeys_partial_cmp_spec() -> bool {
        true
    }

    open spec fn partial_cmp_spec(&self, other: &Date) -> Option<Ordering> {
        Some(self.order(other).standard())
    }
}

impl Ordered for Time {
    open spec fn order(&self, other: &Time) -> Order {
        self.0.order(&other.0).or(self.1.order(&other.1))
    }

    fn compare(&self, other: &Time) -> (r: Order) {
        let order = self.0.compare(&other.0);
        let order = order.or_else(self.1.compare(&other.1));
        order
    }
}

impl PartialOrd for Time {
    fn partial_cmp(&self, other: &Time) -> (r: Option<Ordering>) {
        Some(self.compare(other).to_std())
    }
}

impl PartialOrdSpecImpl for Time {
    open spec fn obeys_partial_cmp_spec() -> bool {
        true
    }

    open spec fn partial_cmp_spec(&self, other: &Time) -> Option<Ordering> {
        Some(self.order(other).standard())
    }
}

impl Ordered for DateTime {
    open spec fn order(&self, other: &DateTime) -> Order {
        self.0.order(&other.0).or(self.1.order(&other.1))
    }

    fn compare(&self, other: &DateTime) -> (r: Order) {
        let order = self.0.compare(&other.0);
        let order = order.or_else(self.1.compare(&other.1));
        order
    }
}

impl PartialOrd for DateTime {
    fn partial_cmp(&self, other: &DateTime) -> (r: Option<Ordering>) {
        Some(self.compare(other).to_std())
    }
}

impl PartialOrdSpecImpl for DateTime {
    open spec fn obeys_partial_cmp_spec() -> bool {
        true
    }

    open spec fn partial_cmp_spec(&self, other: &DateTime) -> Option<Ordering> {
        Some(self.order(other).standard())
    }
}

impl Ordered for Duration {
    open spec fn order(&self, other: &Duration) -> Order {
        self.minutes.order(&other.minutes).or(self.hours.order(&other.hours)).or(
            self.days.order(&other.days),
        ).or(self.weeks.order(&other.weeks)).or(self.months.order(&other.months)).or(
            self.years.order(&other.years),
        )
    }

    fn compare(&self, other: &Duration) -> (r: Order) {
        let order = self.minutes.compare(&other.minutes);
        let order = order.or_else(self.hours.compare(&other.hours));
        let order = order.or_else(self.days.compare(&other.days));
        let order = order.or_else(self.weeks.compare(&other.weeks));
        let order = order.or_else(self.months.compare(&other.months));
        let order = order.or_else(self.years.compare(&other.years));
        order
    }
}

impl PartialOrd for Duration {
    fn partial_cmp(&self, other: &Duration) -> (r: Option<Ordering>) {
        Some(self.compare(other).to_std())
    }
}

impl PartialOrdSpecImpl for Duration {
    open spec fn obeys_partial_cmp_spec() -> bool {
        true
    }

    open spec fn partial_cmp_spec(&self, other: &Duration) -> Option<Ordering> {
        Some(self.order(other).standard())
    }
}

impl AbsoluteTime {
    /// The place of the variant among the two, as they are declared.
    pub open spec fn index(self) -> int {
        match self {
            AbsoluteTime::Date(_) => 0,
            AbsoluteTime::DateTime(_) => 1,
        }
    }

    /// The place of the variant among the two, as they are declared.
    pub fn to_index(&self) -> (r: u8)
        ensures
            r == self.index(),
    {
        match self {
            AbsoluteTime::Date(_) => 0,
            AbsoluteTime::DateTime(_) => 1,
        }
    }
}

impl Ordered for AbsoluteTime {
    open spec fn order(&self, other: &AbsoluteTime) -> Order {
        match (*self, *other) {
            (AbsoluteTime::Date(a), AbsoluteTime::Date(b)) => a.order(&b),
            (AbsoluteTime::DateTime(a), AbsoluteTime::DateTime(b)) => a.order(&b),
            _ => Order::of(self.index(), other.index()),
        }
    }

    fn compare(&self, other: &AbsoluteTime) -> (r: Order) {
        match (self, other) {
            (AbsoluteTime::Date(a), AbsoluteTime::Date(b)) => a.compare(b),
            (AbsoluteTime::DateTime(a), AbsoluteTime::DateTime(b)) => a.compare(b),
            _ => Order::compare(self.to_index() as u64, other.to_index() as u64),
        }
    }
}

impl PartialOrd for AbsoluteTime {
    fn partial_cmp(&self, other: &AbsoluteTime) -> (r: Option<Ordering>) {
        Some(self.compare(other).to_std())
    }
}

impl PartialOrdSpecImpl for AbsoluteTime {
    open spec fn obeys_partial_cmp_spec() -> bool {
        true
    }

    open spec fn partial_cmp_spec(&self, other: &AbsoluteTime) -> Option<Ordering> {
        Some(self.order(other).standard())
    }
}

impl TimeDirection {
    /// The place of the variant among the ten, as they are declared.
    pub open spec fn index(self) -> int {
        match self {
            TimeDirection::AfterAbsolute(_) => 0,
            TimeDirection::BeforeAbsolute(_) => 1,
            TimeDirection::AfterNamed(_) => 2,
            TimeDirection::BeforeNamed(_) => 3,
            TimeDirection::BeforeNext(_) => 4,
            TimeDirection::BeforeLast(_) => 5,
            TimeDirection::AfterNext(_) => 6,
            TimeDirection::AfterLast(_) => 7,
            TimeDirection::Ago => 8,
            TimeDirection::FromNow => 9,
        }
    }

    /// The place of the variant among the ten, as they are declared.
    pub fn to_index(&self) -> (r: u8)
        ensures
            r == self.index(),
    {
        match self {
            TimeDirection::AfterAbsolute(_) => 0,
            TimeDirection::BeforeAbsolute(_) => 1,
            TimeDirection::AfterNamed(_) => 2,
            TimeDirection::BeforeNamed(_) => 3,
            TimeDirection::BeforeNext(_) => 4,
            TimeDirection::BeforeLast(_) => 5,
            TimeDirection::AfterNext(_) => 6,
            TimeDirection::AfterLast(_) => 7,
            TimeDirection::Ago => 8,
            TimeDirection::FromNow => 9,
        }
    }
}

impl Ordered for TimeDirection {
    open spec fn order(&self, other: &TimeDirection) -> Order {
        match (*self, *other) {
            (TimeDirection::AfterAbsolute(a), TimeDirection::AfterAbsolute(b)) => a.order(&b),
            (TimeDirection::BeforeAbsolute(a), TimeDirection::BeforeAbsolute(b)) => a.order(&b),
            (TimeDirection::AfterNamed(a), TimeDirection::AfterNamed(b)) => a.order(&b),
            (TimeDirection::BeforeNamed(a), TimeDirection::BeforeNamed(b)) => a.order(&b),
            (TimeDirection::BeforeNext(a), TimeDirection::BeforeNext(b)) => a.order(&b),
            (TimeDirection::BeforeLast(a), TimeDirection::BeforeLast(b)) => a.order(&b),
            (TimeDirection::AfterNext(a), TimeDirection::AfterNext(b)) => a.order(&b),
            (TimeDirection::AfterLast(a), TimeDirection::AfterLast(b)) => a.order(&b),
            _ => Order::of(self.index(), other.index()),
        }
    }

    fn compare(&self, other: &TimeDirection) -> (r: Order) {
        match (self, other) {
            (TimeDirection::AfterAbsolute(a), TimeDirection::AfterAbsolute(b)) => a.compare(b),
            (TimeDirection::BeforeAbsolute(a), TimeDirection::BeforeAbsolute(b)) => a.compare(b),
            (TimeDirection::AfterNamed(a), TimeDirection::AfterNamed(b)) => a.compare(b),
            (TimeDirection::BeforeNamed(a), TimeDirection::BeforeNamed(b)) => a.compare(b),
            (TimeDirection::BeforeNext(a), TimeDirection::BeforeNext(b)) => a.compare(b),
            (TimeDirection::BeforeLast(a), TimeDirection::BeforeLast(b)) => a.compare(b),
            (TimeDirection::AfterNext(a), TimeDirection::AfterNext(b)) => a.compare(b),
            (TimeDirection::AfterLast(a), TimeDirection::AfterLast(b)) => a.compare(b),
            _ => Order::compare(self.to_index() as u64, other.to_index() as u64),
        }
    }
}

impl PartialOrd for TimeDirection {
    fn partial_cmp(&self, other: &TimeDirection) -> (r: Option<Ordering>) {
        Some(self.compare(other).to_std())
    }
}

impl PartialOrdSpecImpl for TimeDirection {
    open spec fn obeys_partial_cmp_spec() -> bool {
        true
    }

    open spec fn partial_cmp_spec(&self, other: &TimeDirection) -> Option<Ordering> {
        Some(self.order(other).standard())
    }
}

impl RelativeTime {
    /// The place of the variant among the four, as they are declared.
    pub open spec fn index(self) -> int {
        match self {
            RelativeTime::Directional { .. } => 0,
            RelativeTime::Named(_) => 1,
            RelativeTime::Next(_) => 2,
            RelativeTime::Last(_) => 3,
        }
    }

    /// The place of the variant among the four, as they are declared.
    pub fn to_index(&self) -> (r: u8)
        ensures
            r == self.index(),
    {
        match self {
            RelativeTime::Directional { .. } => 0,
            RelativeTime::Named(_) => 1,
            RelativeTime::Next(_) => 2,
            RelativeTime::Last(_) => 3,
        }
    }
}

impl Ordered for RelativeTime {
    open spec fn order(&self, other: &RelativeTime) -> Order {
        match (*self, *other) {
            (
                RelativeTime::Directional { duration: a, dir: a_dir },
                RelativeTime::Directional { duration: b, dir: b_dir },
            ) => a.order(&b).or(a_dir.order(&b_dir)),
            (RelativeTime::Named(a), RelativeTime::Named(b)) => a.order(&b),
            (RelativeTime::Next(a), RelativeTime::Next(b)) => a.order(&b),
            (RelativeTime::Last(a), RelativeTime::Last(b)) => a.order(&b),
            _ => Order::of(self.index(), other.index()),
        }
    }

    fn compare(&self, other: &RelativeTime) -> (r: Order) {
        match (self, other) {
            (
                RelativeTime::Directional { duration: a, dir: a_dir },
                RelativeTime::Directional { duration: b, dir: b_dir },
            ) => a.compare(b).or_else(a_dir.compare(b_dir)),
            (RelativeTime::Named(a), RelativeTime::Named(b)) => a.compare(b),
            (RelativeTime::Next(a), RelativeTime::Next(b)) => a.compare(b),
            (RelativeTime::Last(a), RelativeTime::Last(b)) => a.compare(b),
            _ => Order::compare(self.to_index() as u64, other.to_index() as u64),
        }
    }
}

impl PartialOrd for RelativeTime {
    fn partial_cmp(&self, other: &RelativeTime) -> (r: Option<Ordering>) {
        Some(self.compare(other).to_std())
    }
}

impl PartialOrdSpecImpl for RelativeTime {
    open spec fn obeys_partial_cmp_spec() -> bool {
        true
    }

    open spec fn partial_cmp_spec(&self, other: &RelativeTime) -> Option<Ordering> {
        Some(self.order(other).standard())
    }
}

impl PointInTime {
    /// The place of the variant among the two, as they are declared.
    pub open spec fn index(self) -> int {
        match self {
            PointInTime::Absolute(_) => 0,
            PointInTime::Relative(_) => 1,
        }
    }

    /// The place of the variant among the two, as they are declared.
    pub fn to_index(&self) -> (r: u8)
        ensures
            r == self.index(),
    {
        match self {
            PointInTime::Absolute(_) => 0,
            PointInTime::Relative(_) => 1,
        }
    }
}

impl Ordered for PointInTime {
    open spec fn order(&self, other: &PointInTime) -> Order {
        match (*self, *other) {
            (PointInTime::Absolute(a), PointInTime::Absolute(b)) => a.order(&b),
            (PointInTime::Relative(a), PointInTime::Relative(b)) => a.order(&b),
            _ => Order::of(self.index(), other.index()),
        }
    }

    fn compare(&self, other: &PointInTime) -> (r: Order) {
        match (self, other) {
            (PointInTime::Absolute(a), PointInTime::Absolute(b)) => a.compare(b),
            (PointInTime::Relative(a), PointInTime::Relative(b)) => a.compare(b),
            _ => Order::compare(self.to_index() as u64, other.to_index() as u64),
        }
    }
}

impl PartialOrd for PointInTime {
    fn partial_cmp(&self, other: &PointInTime) -> (r: Option<Ordering>) {
        Some(self.compare(other).to_std())
    }
}

impl PartialOrdSpecImpl for PointInTime {
    open spec fn obeys_partial_cmp_spec() -> bool {
        true
    }

    open spec fn partial_cmp_spec(&self, other: &PointInTime) -> Option<Ordering> {
        Some(self.order(other).standard())
    }
}

impl Ordered for TimeRange {
    open spec fn order(&self, other: &TimeRange) -> Order {
        self.0.order(&other.0).or(self.1.order(&other.1))
    }

    fn compare(&self, other: &TimeRange) -> (r: Order) {
        let order = self.0.compare(&other.0);
        let order = order.or_else(self.1.compare(&other.1));
        order
    }
}

impl PartialOrd for TimeRange {
    fn partial_cmp(&self, other: &TimeRange) -> (r: Option<Ordering>) {
        Some(self.compare(other).to_std())
    }
}

impl PartialOrdSpecImpl for TimeRange {
    open spec fn obeys_partial_cmp_spec() -> bool {
        true
    }

    open spec fn partial_cmp_spec(&self, other: &TimeRange) -> Option<Ordering> {
        Some(self.order(other).standard())
    }
}

impl TimeExpression {
    /// The place of the variant among the three, as they are declared.
    pub open spec fn index(self) -> int {
        match self {
            TimeExpression::Specific(_) => 0,
            TimeExpression::Range(_) => 1,
            TimeExpression::Duration(_) => 2,
        }
    }

    /// The place of the variant among the three, as they are declared.
    pub fn to_index(&self) -> (r: u8)
        ensures
            r == self.index(),
    {
        match self {
            TimeExpression::Specific(_) => 0,
            TimeExpression::Range(_) => 1,
            TimeExpression::Duration(_) => 2,
        }
    }
}

impl Ordered for TimeExpression {
    open spec fn order(&self, other: &TimeExpression) -> Order {
        match (*self, *other) {
            (TimeExpression::Specific(a), TimeExpression::Specific(b)) => a.order(&b),
            (TimeExpression::Range(a), TimeExpression::Range(b)) => a.order(&b),
            (TimeExpression::Duration(a), TimeExpression::Duration(b)) => a.order(&b),
            _ => Order::of(self.index(), other.index()),
        }
    }

    fn compare(&self, other: &TimeExpression) -> (r: Order) {
        match (self, other) {
            (TimeExpression::Specific(a), TimeExpression::Specific(b)) => a.compare(b),
            (TimeExpression::Range(a), TimeExpression::Range(b)) => a.compare(b),
            (TimeExpression::Duration(a), TimeExpression::Duration(b)) => a.compare(b),
            _ => Order::compare(self.to_index() as u64, other.to_index() as u64),
        }
    }
}

impl PartialOrd for TimeExpression {
    fn partial_cmp(&self, other: &TimeExpression) -> (r: Option<Ordering>) {
        Some(self.compare(other).to_std())
    }
}

impl PartialOrdSpecImpl for TimeExpression {
    open spec fn obeys_partial_cmp_spec() -> bool {
        true
    }

    open spec fn partial_cmp_spec(&self, other: &TimeExpression) -> Option<Ordering> {
        Some(self.order(other).standard())
    }
}

} // verus!
