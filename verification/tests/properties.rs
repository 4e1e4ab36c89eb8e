use std::cmp::Ordering;
use timelang::{
    parse_str, parse_tokens, tokenize, AbsoluteTime, AmPm, Canonical, Date, DateTime, DayOfMonth,
    Duration, Hour, Minute, Month, NamedRelativeTime, Number, Order, Ordered, Parse, PointInTime,
    RelativeTime, RelativeTimeUnit, Time, TimeDirection, TimeExpression, TimeRange, TimeUnit,
    Year,
};

fn duration(years: u64, months: u64, weeks: u64, days: u64, hours: u64, minutes: u64) -> Duration {
    Duration {
        minutes: Number(minutes),
        hours: Number(hours),
        days: Number(days),
        weeks: Number(weeks),
        months: Number(months),
        years: Number(years),
    }
}

fn date(day: u8, month: Month, year: u16) -> Date {
    Date(month, DayOfMonth(day), Year(year))
}

fn points() -> Vec<PointInTime> {
    let afternoon = Time(Hour::Hour12(3, AmPm::PM), Minute(58));
    let midnight = Time(Hour::Hour24(24), Minute(60));
    let noon = Time(Hour::Hour12(12, AmPm::AM), Minute(0));
    let plain = AbsoluteTime::Date(date(20, Month::April, 2021));
    let timed = AbsoluteTime::DateTime(DateTime(date(15, Month::June, 2022), afternoon));
    let late = AbsoluteTime::DateTime(DateTime(date(31, Month::December, 65535), midnight));
    let early = AbsoluteTime::DateTime(DateTime(date(1, Month::January, 0), noon));
    let mut all = vec![
        PointInTime::Absolute(plain),
        PointInTime::Absolute(timed),
        PointInTime::Absolute(late),
        PointInTime::Absolute(early),
    ];
    let names = [
        NamedRelativeTime::Now,
        NamedRelativeTime::Today,
        NamedRelativeTime::Tomorrow,
        NamedRelativeTime::Yesterday,
        NamedRelativeTime::DayAfterTomorrow,
        NamedRelativeTime::DayBeforeYesterday,
    ];
    let units = [
        RelativeTimeUnit::Week,
        RelativeTimeUnit::Month,
        RelativeTimeUnit::Year,
        RelativeTimeUnit::Monday,
        RelativeTimeUnit::Tuesday,
        RelativeTimeUnit::Wednesday,
        RelativeTimeUnit::Thursday,
        RelativeTimeUnit::Friday,
        RelativeTimeUnit::Saturday,
        RelativeTimeUnit::Sunday,
    ];
    let mut directions = vec![
        TimeDirection::Ago,
        TimeDirection::FromNow,
        TimeDirection::AfterAbsolute(plain),
        TimeDirection::BeforeAbsolute(timed),
        TimeDirection::AfterAbsolute(late),
        TimeDirection::BeforeAbsolute(early),
    ];
    for name in names {
        all.push(PointInTime::Relative(RelativeTime::Named(name)));
        directions.push(TimeDirection::AfterNamed(name));
        directions.push(TimeDirection::BeforeNamed(name));
    }
    for unit in units {
        all.push(PointInTime::Relative(RelativeTime::Next(unit)));
        all.push(PointInTime::Relative(RelativeTime::Last(unit)));
        directions.push(TimeDirection::AfterNext(unit));
        directions.push(TimeDirection::BeforeNext(unit));
        directions.push(TimeDirection::AfterLast(unit));
        directions.push(TimeDirection::BeforeLast(unit));
    }
    let spans = [
        duration(0, 0, 0, 0, 0, 1),
        duration(2, 0, 0, 0, 0, 1),
        duration(1, 2, 3, 4, 5, 6),
        duration(0, 1, 0, 1, 0, 0),
        duration(u64::MAX, 0, 0, 0, 1, 0),
    ];
    for dir in directions {
        for span in spans {
            all.push(PointInTime::Relative(RelativeTime::Directional { duration: span, dir }));
        }
    }
    all
}

fn expressions() -> Vec<TimeExpression> {
    let points = points();
    let mut all = Vec::new();
    for point in &points {
        all.push(TimeExpression::Specific(*point));
    }
    for (i, start) in points.iter().enumerate() {
        let end = points[(i * 7 + 3) % points.len()];
        all.push(TimeExpression::Range(TimeRange(*start, end)));
        all.push(TimeExpression::Range(TimeRange(end, *start)));
    }
    all.push(TimeExpression::Duration(duration(0, 0, 0, 0, 0, 1)));
    all.push(TimeExpression::Duration(duration(1, 1, 1, 1, 1, 1)));
    all.push(TimeExpression::Duration(duration(0, 0, 7, 0, 0, 0)));
    all.push(TimeExpression::Duration(duration(9, 0, 0, 0, 0, 12)));
    all
}

#[test]
fn text_round_trip() {
    for expression in expressions() {
        let text = expression.to_string();
        assert_eq!(parse_str::<TimeExpression>(&text), Ok(expression), "{}", text);
        assert_eq!(text.parse::<TimeExpression>(), Ok(expression), "{}", text);
    }
}

#[test]
fn token_round_trip() {
    for expression in expressions() {
        let tokens = expression.to_tokens();
        assert_eq!(parse_tokens::<TimeExpression>(&tokens), Ok(expression));
    }
}

#[test]
fn canonical_text_lexes_to_canonical_tokens() {
    for expression in expressions() {
        let text = expression.to_string();
        assert_eq!(tokenize(&text), Some(expression.to_tokens()), "{}", text);
    }
}

#[test]
fn render_is_idempotent() {
    for expression in expressions() {
        let text = expression.to_string();
        let again = parse_str::<TimeExpression>(&text).unwrap();
        assert_eq!(again.to_string(), text);
        assert_eq!(again.to_tokens(), expression.to_tokens());
    }
}

#[test]
fn round_trip_of_each_node() {
    fn check<T: Parse + Canonical + PartialEq + core::fmt::Debug + Copy>(value: T) {
        let tokens = value.to_tokens();
        assert_eq!(parse_tokens::<T>(&tokens), Ok(value));
    }
    check(Number(0));
    check(Number(u64::MAX));
    check(DayOfMonth(1));
    check(DayOfMonth(31));
    check(Month::January);
    check(Month::December);
    check(Year(0));
    check(Year(65535));
    check(Minute(0));
    check(Minute(60));
    check(AmPm::AM);
    check(AmPm::PM);
    check(Hour::Hour12(1, AmPm::AM));
    check(Hour::Hour12(12, AmPm::PM));
    check(Hour::Hour24(0));
    check(Hour::Hour24(24));
    check(TimeUnit::Minutes);
    check(TimeUnit::Hours);
    check(TimeUnit::Days);
    check(TimeUnit::Weeks);
    check(TimeUnit::Months);
    check(TimeUnit::Years);
    check(RelativeTimeUnit::Week);
    check(RelativeTimeUnit::Sunday);
    check(date(29, Month::February, 2023));
    check(Time(Hour::Hour24(7), Minute(5)));
    check(Time(Hour::Hour12(7, AmPm::AM), Minute(5)));
    check(DateTime(date(1, Month::March, 1), Time(Hour::Hour24(0), Minute(0))));
    check(NamedRelativeTime::DayBeforeYesterday);
    check(TimeDirection::BeforeLast(RelativeTimeUnit::Year));
    check(duration(0, 0, 0, 3, 0, 0));
    check(TimeRange(
        PointInTime::Relative(RelativeTime::Named(NamedRelativeTime::Now)),
        PointInTime::Absolute(AbsoluteTime::Date(date(2, Month::May, 2000))),
    ));
}

#[test]
fn text_round_trip_of_each_node() {
    assert_eq!(parse_str::<Number>(&Number(1234567890).to_string()), Ok(Number(1234567890)));
    assert_eq!(parse_str::<DayOfMonth>(&DayOfMonth(9).to_string()), Ok(DayOfMonth(9)));
    assert_eq!(parse_str::<Month>(&Month::November.to_string()), Ok(Month::November));
    assert_eq!(parse_str::<Year>(&Year(1999).to_string()), Ok(Year(1999)));
    assert_eq!(parse_str::<Minute>(&Minute(8).to_string()), Ok(Minute(8)));
    assert_eq!(parse_str::<Minute>(&Minute(9).to_string()), Ok(Minute(9)));
    assert_eq!(parse_str::<AmPm>(&AmPm::PM.to_string()), Ok(AmPm::PM));
    assert_eq!(
        parse_str::<Hour>(&Hour::Hour12(5, AmPm::PM).to_string()),
        Ok(Hour::Hour12(5, AmPm::PM))
    );
    assert_eq!(parse_str::<Hour>(&Hour::Hour24(18).to_string()), Ok(Hour::Hour24(18)));
    for unit in [
        TimeUnit::Minutes,
        TimeUnit::Hours,
        TimeUnit::Days,
        TimeUnit::Weeks,
        TimeUnit::Months,
        TimeUnit::Years,
    ] {
        assert_eq!(parse_str::<TimeUnit>(&unit.to_string()), Ok(unit));
        assert_eq!(parse_str::<TimeUnit>(unit.as_ref()), Ok(unit));
    }
    for unit in [RelativeTimeUnit::Month, RelativeTimeUnit::Wednesday] {
        assert_eq!(parse_str::<RelativeTimeUnit>(&unit.to_string()), Ok(unit));
    }
    let time = Time(Hour::Hour24(9), Minute(7));
    assert_eq!(time.to_string(), "9:07");
    assert_eq!(parse_str::<Time>(&time.to_string()), Ok(time));
}

#[test]
fn a_duration_of_zero_has_no_text_to_read_back() {
    let zero = duration(0, 0, 0, 0, 0, 0);
    assert_eq!(parse_str::<Duration>("0 minutes"), Ok(zero));
    assert_eq!(zero.to_string(), "");
    assert!(zero.to_tokens().is_empty());
    assert!(parse_str::<Duration>(&zero.to_string()).is_err());
    let ago = RelativeTime::Directional { duration: zero, dir: TimeDirection::Ago };
    assert_eq!(ago.to_string(), " ago");
    assert!(parse_str::<RelativeTime>(&ago.to_string()).is_err());
}

#[test]
fn duration_summation() {
    assert_eq!(
        parse_str::<Duration>("3 minutes, 2 hours, 4 minutes"),
        Ok(duration(0, 0, 0, 0, 2, 7))
    );
    assert_eq!(
        parse_str::<TimeExpression>("3 minutes, 2 hours, 4 minutes"),
        Ok(TimeExpression::Duration(duration(0, 0, 0, 0, 2, 7)))
    );
    assert_eq!(
        parse_str::<Duration>("1 day 1 day 1 days 2 yr 5 year"),
        Ok(duration(7, 0, 0, 3, 0, 0))
    );
}

#[test]
fn zero_omission() {
    assert_eq!(duration(2, 0, 0, 0, 0, 1).to_string(), "2 years, 1 minute");
    assert_eq!(duration(0, 0, 0, 0, 0, 0).to_string(), "");
    assert_eq!(duration(0, 1, 0, 0, 0, 0).to_string(), "1 month");
    assert_eq!(duration(0, 0, 2, 0, 1, 0).to_string(), "2 weeks, 1 hour");
    assert_eq!(
        duration(10, 11, 12, 13, 14, 15).to_string(),
        "10 years, 11 months, 12 weeks, 13 days, 14 hours, 15 minutes"
    );
    assert_eq!(
        duration(1, 1, 1, 1, 1, 1).to_string(),
        "1 year, 1 month, 1 week, 1 day, 1 hour, 1 minute"
    );
}

#[test]
fn hour_validation() {
    assert!(parse_str::<Time>("13:00 PM").is_err());
    assert_eq!(parse_str::<Time>("13:00"), Ok(Time(Hour::Hour24(13), Minute(0))));
    assert!(parse_str::<Hour>("0 AM").is_err());
    assert!(parse_str::<Time>("0:30 AM").is_err());
    assert_eq!(parse_str::<Hour>("12 am"), Ok(Hour::Hour12(12, AmPm::AM)));
    assert_eq!(parse_str::<Hour>("24"), Ok(Hour::Hour24(24)));
    assert_eq!(parse_str::<Time>("24:60"), Ok(Time(Hour::Hour24(24), Minute(60))));
    assert!(parse_str::<Hour>("25").is_err());
    assert!(parse_str::<Time>("25:00").is_err());
    assert!(parse_str::<Time>("12:61").is_err());
    assert!(parse_str::<Hour>("13 PM").is_err());
}

#[test]
fn field_bounds() {
    assert!(parse_str::<DayOfMonth>("0").is_err());
    assert!(parse_str::<DayOfMonth>("32").is_err());
    assert_eq!(parse_str::<DayOfMonth>("1"), Ok(DayOfMonth(1)));
    assert_eq!(parse_str::<DayOfMonth>("31"), Ok(DayOfMonth(31)));
    assert!(parse_str::<Month>("0").is_err());
    assert!(parse_str::<Month>("13").is_err());
    assert_eq!(parse_str::<Month>("1"), Ok(Month::January));
    assert_eq!(parse_str::<Month>("12"), Ok(Month::December));
    assert!(parse_str::<Date>("0/4/2021").is_err());
    assert!(parse_str::<Date>("32/4/2021").is_err());
    assert!(parse_str::<Date>("20/0/2021").is_err());
    assert!(parse_str::<Date>("20/13/2021").is_err());
    assert_eq!(parse_str::<Year>("65535"), Ok(Year(65535)));
    assert!(parse_str::<Year>("65536").is_err());
    assert_eq!(parse_str::<Date>("31/2/0"), Ok(date(31, Month::February, 0)));
    for day in 0..=40u8 {
        for month in 0..=14u8 {
            let text = format!("{}/{}/2000", day, month);
            match parse_str::<Date>(&text) {
                Ok(Date(m, DayOfMonth(d), _)) => {
                    assert!((1..=31).contains(&d));
                    assert!((1..=12).contains(&u8::from(m)));
                    assert_eq!(d, day);
                    assert_eq!(u8::from(m), month);
                }
                Err(_) => assert!(day == 0 || day > 31 || month == 0 || month > 12),
            }
        }
    }
}

#[test]
fn disambiguation() {
    assert_eq!(
        parse_str::<TimeExpression>("20/4/2021"),
        Ok(TimeExpression::Specific(PointInTime::Absolute(AbsoluteTime::Date(date(
            20,
            Month::April,
            2021
        )))))
    );
    assert_eq!(
        parse_str::<TimeExpression>("15/6/2022 at 14:00"),
        Ok(TimeExpression::Specific(PointInTime::Absolute(AbsoluteTime::DateTime(DateTime(
            date(15, Month::June, 2022),
            Time(Hour::Hour24(14), Minute(0))
        )))))
    );
    assert_eq!(
        parse_str::<TimeExpression>("from 1/1/2023 to 15/1/2023"),
        Ok(TimeExpression::Range(TimeRange(
            PointInTime::Absolute(AbsoluteTime::Date(date(1, Month::January, 2023))),
            PointInTime::Absolute(AbsoluteTime::Date(date(15, Month::January, 2023)))
        )))
    );
    assert_eq!(
        parse_str::<TimeExpression>("2 hours, 30 minutes"),
        Ok(TimeExpression::Duration(duration(0, 0, 0, 0, 2, 30)))
    );
    assert_eq!(
        parse_str::<TimeExpression>("3 days ago"),
        Ok(TimeExpression::Specific(PointInTime::Relative(RelativeTime::Directional {
            duration: duration(0, 0, 0, 3, 0, 0),
            dir: TimeDirection::Ago
        })))
    );
    assert_eq!(
        parse_str::<TimeExpression>("next tuesday"),
        Ok(TimeExpression::Specific(PointInTime::Relative(RelativeTime::Next(
            RelativeTimeUnit::Tuesday
        ))))
    );
    assert_eq!(
        parse_str::<RelativeTime>("next tuesday"),
        Ok(RelativeTime::Next(RelativeTimeUnit::Tuesday))
    );
    assert_eq!(
        parse_str::<RelativeTime>("2 days and 14 hours after the day after tomorrow"),
        Ok(RelativeTime::Directional {
            duration: duration(0, 0, 0, 2, 14, 0),
            dir: TimeDirection::AfterNamed(NamedRelativeTime::DayAfterTomorrow)
        })
    );
}

#[test]
fn examples_of_the_language() {
    assert_eq!(
        parse_str::<TimeExpression>("1 year and 6 months"),
        Ok(TimeExpression::Duration(duration(1, 6, 0, 0, 0, 0)))
    );
    assert_eq!(
        parse_str::<TimeExpression>("5 days, 10 hours, and 35 minutes from now"),
        Ok(TimeExpression::Specific(PointInTime::Relative(RelativeTime::Directional {
            duration: duration(0, 0, 0, 5, 10, 35),
            dir: TimeDirection::FromNow
        })))
    );
    assert_eq!(
        parse_str::<TimeExpression>("2 hours, 3 minutes after 10/10/2022"),
        Ok(TimeExpression::Specific(PointInTime::Relative(RelativeTime::Directional {
            duration: duration(0, 0, 0, 0, 2, 3),
            dir: TimeDirection::AfterAbsolute(AbsoluteTime::Date(date(
                10,
                Month::October,
                2022
            )))
        })))
    );
    assert_eq!(
        parse_str::<TimeExpression>("1 day before 31/12/2023 at 11:13 PM"),
        Ok(TimeExpression::Specific(PointInTime::Relative(RelativeTime::Directional {
            duration: duration(0, 0, 0, 1, 0, 0),
            dir: TimeDirection::BeforeAbsolute(AbsoluteTime::DateTime(DateTime(
                date(31, Month::December, 2023),
                Time(Hour::Hour12(11, AmPm::PM), Minute(13))
            )))
        })))
    );
    assert_eq!(
        parse_str::<TimeExpression>("from 1/1/2024 at 10:00 to 2/1/2024 at 15:30"),
        Ok(TimeExpression::Range(TimeRange(
            PointInTime::Absolute(AbsoluteTime::DateTime(DateTime(
                date(1, Month::January, 2024),
                Time(Hour::Hour24(10), Minute(0))
            ))),
            PointInTime::Absolute(AbsoluteTime::DateTime(DateTime(
                date(2, Month::January, 2024),
                Time(Hour::Hour24(15), Minute(30))
            )))
        )))
    );
    assert_eq!(
        parse_str::<TimeExpression>(
            "from 19/3/2024 at 10:07 AM to 3 months 2 days after 3/9/2027 at 5:27 PM"
        ),
        Ok(TimeExpression::Range(TimeRange(
            PointInTime::Absolute(AbsoluteTime::DateTime(DateTime(
                date(19, Month::March, 2024),
                Time(Hour::Hour12(10, AmPm::AM), Minute(7))
            ))),
            PointInTime::Relative(RelativeTime::Directional {
                duration: duration(0, 3, 0, 2, 0, 0),
                dir: TimeDirection::AfterAbsolute(AbsoluteTime::DateTime(DateTime(
                    date(3, Month::September, 2027),
                    Time(Hour::Hour12(5, AmPm::PM), Minute(27))
                )))
            })
        )))
    );
    assert_eq!(
        parse_str::<RelativeTime>("last wednesday"),
        Ok(RelativeTime::Last(RelativeTimeUnit::Wednesday))
    );
    assert_eq!(
        parse_str::<RelativeTime>("3 days before yesterday"),
        Ok(RelativeTime::Directional {
            duration: duration(0, 0, 0, 3, 0, 0),
            dir: TimeDirection::BeforeNamed(NamedRelativeTime::Yesterday)
        })
    );
    assert_eq!(
        parse_str::<RelativeTime>("2 weeks before last sunday"),
        Ok(RelativeTime::Directional {
            duration: duration(0, 0, 2, 0, 0, 0),
            dir: TimeDirection::BeforeLast(RelativeTimeUnit::Sunday)
        })
    );
    assert_eq!(
        parse_str::<RelativeTime>("3 years, 2 weeks after next thursday"),
        Ok(RelativeTime::Directional {
            duration: duration(3, 0, 2, 0, 0, 0),
            dir: TimeDirection::AfterNext(RelativeTimeUnit::Thursday)
        })
    );
    assert_eq!(
        parse_str::<TimeDirection>("before next week"),
        Ok(TimeDirection::BeforeNext(RelativeTimeUnit::Week))
    );
    assert_eq!(
        parse_str::<TimeDirection>("after last month"),
        Ok(TimeDirection::AfterLast(RelativeTimeUnit::Month))
    );
}

#[test]
fn canonical_form_need_not_be_the_input() {
    let idiom = parse_str::<RelativeTime>("Day Before Yesterday").unwrap();
    assert_eq!(idiom.to_string(), "the day before yesterday");
    let idiom = parse_str::<NamedRelativeTime>("day after tomorrow").unwrap();
    assert_eq!(idiom.to_string(), "the day after tomorrow");
    let timed = parse_str::<DateTime>("1/1/2019 20:15").unwrap();
    assert_eq!(timed.to_string(), "1/1/2019 at 20:15");
    let span = parse_str::<Duration>("1 min and 2 hrs 1 yr").unwrap();
    assert_eq!(span.to_string(), "1 year, 2 hours, 1 minute");
    let day = parse_str::<RelativeTime>("NEXT FRIDAY").unwrap();
    assert_eq!(day.to_string(), "next Friday");
    let time = parse_str::<Time>("5:07 pm").unwrap();
    assert_eq!(time.to_string(), "5:07 PM");
    assert_eq!(parse_str::<Hour>("5 pm").unwrap().to_string(), "5 PM");
    assert_eq!(Minute(4).to_string(), "04");
    assert_eq!(Minute(60).to_string(), "60");
    assert_eq!(Minute(0).to_string(), "00");
    assert_eq!(Minute(10).to_string(), "10");
    assert_eq!(Minute(255).to_string(), "255");
    assert_eq!(Year(0).to_string(), "0");
    assert_eq!(Year(65535).to_string(), "65535");
    assert_eq!(DayOfMonth(7).to_string(), "7");
    assert_eq!(date(5, Month::July, 1991).to_string(), "5/7/1991");
    assert_eq!(Time(Hour::Hour12(12, AmPm::AM), Minute(0)).to_string(), "12:00 AM");
}

#[test]
fn duration_separators() {
    let expected = Ok(duration(0, 0, 0, 1, 2, 0));
    assert_eq!(parse_str::<Duration>("1 day 2 hours"), expected);
    assert_eq!(parse_str::<Duration>("1 day, 2 hours"), expected);
    assert_eq!(parse_str::<Duration>("1 day and 2 hours"), expected);
    assert_eq!(parse_str::<Duration>("1 day, and 2 hours"), expected);
    assert_eq!(parse_str::<Duration>("1 day AND 2 hours"), expected);
    assert!(parse_str::<Duration>("1 day and, 2 hours").is_err());
    assert!(parse_str::<Duration>("1 day,, 2 hours").is_err());
    assert!(parse_str::<Duration>("1 day and and 2 hours").is_err());
    assert_eq!(parse_str::<Duration>("1 day,"), Ok(duration(0, 0, 0, 1, 0, 0)));
    assert_eq!(parse_str::<Duration>("1 day and"), Ok(duration(0, 0, 0, 1, 0, 0)));
    assert!(parse_str::<Duration>("").is_err());
    assert!(parse_str::<Duration>("days").is_err());
}

#[test]
fn unit_synonyms() {
    for (text, unit) in [
        ("mins", TimeUnit::Minutes),
        ("minutes", TimeUnit::Minutes),
        ("minute", TimeUnit::Minutes),
        ("min", TimeUnit::Minutes),
        ("hours", TimeUnit::Hours),
        ("hrs", TimeUnit::Hours),
        ("hour", TimeUnit::Hours),
        ("hr", TimeUnit::Hours),
        ("days", TimeUnit::Days),
        ("day", TimeUnit::Days),
        ("weeks", TimeUnit::Weeks),
        ("week", TimeUnit::Weeks),
        ("months", TimeUnit::Months),
        ("month", TimeUnit::Months),
        ("years", TimeUnit::Years),
        ("yr", TimeUnit::Years),
        ("year", TimeUnit::Years),
        ("YEARS", TimeUnit::Years),
        ("Hrs", TimeUnit::Hours),
    ] {
        assert_eq!(parse_str::<TimeUnit>(text), Ok(unit), "{}", text);
    }
    assert!(parse_str::<TimeUnit>("seconds").is_err());
    assert!(parse_str::<TimeUnit>("yrs").is_err());
    for (text, unit) in [
        ("week", RelativeTimeUnit::Week),
        ("month", RelativeTimeUnit::Month),
        ("year", RelativeTimeUnit::Year),
        ("monday", RelativeTimeUnit::Monday),
        ("tuesday", RelativeTimeUnit::Tuesday),
        ("wednesday", RelativeTimeUnit::Wednesday),
        ("thursday", RelativeTimeUnit::Thursday),
        ("friday", RelativeTimeUnit::Friday),
        ("saturday", RelativeTimeUnit::Saturday),
        ("Sunday", RelativeTimeUnit::Sunday),
    ] {
        assert_eq!(parse_str::<RelativeTimeUnit>(text), Ok(unit), "{}", text);
    }
    assert!(parse_str::<RelativeTimeUnit>("day").is_err());
    assert!(parse_str::<RelativeTimeUnit>("weeks").is_err());
}

#[test]
fn month_numbers() {
    let months = [
        Month::January,
        Month::February,
        Month::March,
        Month::April,
        Month::May,
        Month::June,
        Month::July,
        Month::August,
        Month::September,
        Month::October,
        Month::November,
        Month::December,
    ];
    for (i, month) in months.iter().enumerate() {
        let number = i as u8 + 1;
        assert_eq!(u8::from(*month), number);
        assert_eq!(u8::from(month), number);
        assert_eq!(month.to_number(), number);
        assert_eq!(Month::from_number(number as u64), Some(*month));
        assert_eq!(month.to_string(), number.to_string());
    }
    assert_eq!(Month::from_number(0), None);
    assert_eq!(Month::from_number(13), None);
}

#[test]
fn number_arithmetic() {
    assert_eq!(Number(3) + Number(4), Number(7));
    assert_eq!(Number(9) - Number(4), Number(5));
    assert_eq!(Number(6) * Number(7), Number(42));
    assert_eq!(Number(42) / Number(5), Number(8));
    assert_eq!(Number(0) + Number(u64::MAX), Number(u64::MAX));
    assert!(Number(5) == 5u64);
    assert!(Number(5) != 6u64);
    assert!(Number(5) < 6u64);
    assert!(Number(5) > 4u64);
    assert!(Number(5) <= 5u64);
    assert!(Number(5) < Number(6));
    assert_eq!(Number::from(12u64), Number(12));
    assert_eq!(u64::from(Number(12)), 12);
    assert_eq!(Number(1234567890).to_string(), "1234567890");
    assert_eq!(Number(0).to_string(), "0");
    assert_eq!(Number(u64::MAX).to_string(), "18446744073709551615");
}

#[test]
fn duration_arithmetic() {
    let zero = Duration::new();
    assert_eq!(zero, duration(0, 0, 0, 0, 0, 0));
    let some = zero.checked_add(TimeUnit::Weeks, Number(3)).unwrap();
    assert_eq!(some, duration(0, 0, 3, 0, 0, 0));
    assert_eq!(some.get(TimeUnit::Weeks), Number(3));
    assert_eq!(some.get(TimeUnit::Days), Number(0));
    let more = some.checked_add(TimeUnit::Weeks, Number(u64::MAX - 3)).unwrap();
    assert_eq!(more.get(TimeUnit::Weeks), Number(u64::MAX));
    assert_eq!(more.checked_add(TimeUnit::Weeks, Number(1)), None);
    assert_eq!(
        more.checked_add(TimeUnit::Years, Number(1)),
        Some(duration(1, 0, u64::MAX, 0, 0, 0))
    );
}

#[test]
fn structural_order() {
    assert!(TimeExpression::Specific(PointInTime::Relative(RelativeTime::Named(
        NamedRelativeTime::Now
    ))) < TimeExpression::Duration(duration(0, 0, 0, 0, 0, 0)));
    assert!(date(31, Month::January, 2030) < date(1, Month::February, 1990));
    assert!(duration(9, 0, 0, 0, 0, 1) < duration(0, 0, 0, 0, 0, 2));
    assert!(Hour::Hour12(12, AmPm::PM) < Hour::Hour24(0));
    assert!(AmPm::AM < AmPm::PM);
    assert!(TimeUnit::Minutes < TimeUnit::Years);
}

#[test]
fn the_order_is_the_derived_one() {
    let all = expressions();
    for a in &all {
        for b in &all {
            let derived = a.cmp(b);
            assert_eq!(a.partial_cmp(b), Some(derived));
            assert_eq!(a.compare(b).to_std(), derived);
            assert_eq!(a < b, derived == Ordering::Less);
            assert_eq!(a == b, derived == Ordering::Equal);
        }
    }
    let points = points();
    for a in &points {
        for b in &points {
            assert_eq!(a.partial_cmp(b), Some(a.cmp(b)));
        }
    }
}

#[test]
fn the_order_of_fields() {
    assert_eq!(Order::compare(1, 2), Order::Less);
    assert_eq!(Order::compare(2, 2), Order::Equal);
    assert_eq!(Order::compare(3, 2), Order::Greater);
    assert_eq!(Order::Equal.or_else(Order::Greater), Order::Greater);
    assert_eq!(Order::Less.or_else(Order::Greater), Order::Less);
    assert_eq!(Order::Less.to_std(), Ordering::Less);
    assert_eq!(Order::Equal.to_std(), Ordering::Equal);
    assert_eq!(Order::Greater.to_std(), Ordering::Greater);
    assert_eq!(Number(3).compare(&Number(4)), Order::Less);
    assert_eq!(Number(3).partial_cmp(&Number(3)), Some(Ordering::Equal));
    assert_eq!(Month::March.compare(&Month::February), Order::Greater);
    assert_eq!(
        date(1, Month::February, 1990).compare(&date(31, Month::January, 2030)),
        Order::Greater
    );
    assert_eq!(
        date(1, Month::February, 1990).compare(&date(2, Month::February, 1980)),
        Order::Less
    );
    assert_eq!(Hour::Hour12(12, AmPm::PM).compare(&Hour::Hour24(0)), Order::Less);
    assert_eq!(Hour::Hour12(3, AmPm::PM).compare(&Hour::Hour12(3, AmPm::AM)), Order::Greater);
    assert_eq!(Hour::Hour12(2, AmPm::PM).compare(&Hour::Hour12(3, AmPm::AM)), Order::Less);
    assert_eq!(
        duration(9, 0, 0, 0, 0, 1).compare(&duration(0, 0, 0, 0, 0, 2)),
        Order::Less
    );
    assert_eq!(
        duration(9, 0, 0, 0, 0, 1).compare(&duration(8, 0, 0, 0, 0, 1)),
        Order::Greater
    );
    assert_eq!(TimeDirection::Ago.compare(&TimeDirection::FromNow), Order::Less);
    assert_eq!(
        TimeDirection::BeforeNext(RelativeTimeUnit::Sunday)
            .compare(&TimeDirection::AfterNext(RelativeTimeUnit::Week)),
        Order::Less
    );
    assert_eq!(
        RelativeTime::Last(RelativeTimeUnit::Week).compare(&RelativeTime::Next(
            RelativeTimeUnit::Sunday
        )),
        Order::Greater
    );
    let weekdays = [
        RelativeTimeUnit::Week,
        RelativeTimeUnit::Month,
        RelativeTimeUnit::Year,
        RelativeTimeUnit::Monday,
        RelativeTimeUnit::Tuesday,
        RelativeTimeUnit::Wednesday,
        RelativeTimeUnit::Thursday,
        RelativeTimeUnit::Friday,
        RelativeTimeUnit::Saturday,
        RelativeTimeUnit::Sunday,
    ];
    for (i, a) in weekdays.iter().enumerate() {
        assert_eq!(a.to_index() as usize, i);
        for b in &weekdays {
            assert_eq!(a.partial_cmp(b), Some(a.cmp(b)));
        }
    }
    let units = [
        TimeUnit::Minutes,
        TimeUnit::Hours,
        TimeUnit::Days,
        TimeUnit::Weeks,
        TimeUnit::Months,
        TimeUnit::Years,
    ];
    for (i, a) in units.iter().enumerate() {
        assert_eq!(a.to_index() as usize, i);
        assert_eq!(TimeUnit::from_rank(5 - i), *a);
        for b in &units {
            assert_eq!(a.partial_cmp(b), Some(a.cmp(b)));
        }
    }
}
