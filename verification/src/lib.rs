//! A small language for human-readable time expressions: absolute dates and
//! times, named and computed relative times, ranges and durations.
//!
//! ```text
//! TimeExpression    := PointInTime | TimeRange | Duration
//! TimeRange         := "from" PointInTime "to" PointInTime
//! PointInTime       := AbsoluteTime | RelativeTime
//! AbsoluteTime      := Date | Date ["at"] Time
//! Date              := DayOfMonth "/" Month "/" Year
//! Time              := Hour ":" Minute [AmPm]
//! RelativeTime      := Duration TimeDirection | NamedRelativeTime
//!                    | ("next" | "last") RelativeTimeUnit
//! NamedRelativeTime := "now" | "today" | "tomorrow" | "yesterday"
//!                    | ["the"] "day" "after" "tomorrow"
//!                    | ["the"] "day" "before" "yesterday"
//! TimeDirection     := ("after" | "before") Anchor | "ago" | "from" "now"
//! Anchor            := AbsoluteTime | NamedRelativeTime
//!                    | ("next" | "last") RelativeTimeUnit
//! Duration          := Number TimeUnit ([","] ["and"] Number TimeUnit)*
//! ```
//!
//! Every node of the language is a plain value. [`Parse`] reads a node
//! from a [`Cursor`] over [`Token`]s, and states in `grammar` what it reads;
//! [`parse_tokens`] and [`parse_str`] read one node from a whole input.
//! [`Canonical`] gives each node its canonical text and tokens, and proves
//! that the grammar reads the canonical tokens back. Each node has a
//! `to_string` that returns the canonical text.
//!
//! The language knows words, numbers and punctuation; splitting a text into
//! them is left to the lexer of `proc-macro2`, as the module [`lex`] tells.

pub mod absolute;
pub mod canonical;
pub mod cursor;
pub mod duration;
pub mod error;
pub mod expression;
pub mod fields;
pub mod lex;
pub mod number;
pub mod order;
pub mod parse;
pub mod relative;
pub mod text;
pub mod token;

pub use absolute::{AbsoluteTime, Date, DateTime, Time};
pub use canonical::Canonical;
pub use cursor::Cursor;
pub use duration::Duration;
pub use error::{Expected, ParseError};
pub use expression::{PointInTime, TimeExpression, TimeRange};
pub use fields::{AmPm, DayOfMonth, Hour, Minute, Month, RelativeTimeUnit, TimeUnit, Year};
pub use lex::tokenize;
pub use number::Number;
pub use order::{Order, Ordered};
pub use parse::{parse_str, parse_tokens, Parse};
pub use relative::{Anchor, NamedRelativeTime, RelativeTime, TimeDirection};
pub use token::{Token, Word};
