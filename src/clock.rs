//! Timestamps as a UTC wall clock, and integers as decimal text.
use vstd::prelude::*;
use chrono::Timelike;
use crate::error::WeatherError;

verus! {

/// Seconds in a day.
pub const SECS_PER_DAY: u32 = 86400;

/// The last second of the year 262142, where the calendar ends: a timestamp
/// from 0 up to it has a calendar time, and a later one has none.
pub const MAX_CLOCK_SECS: u64 = 8210266876799;

/// The character of a decimal digit.
pub open spec fn digit_char(d: int) -> char
    recommends
        0 <= d < 10,
{
    seq!['0', '1', '2', '3', '4', '5', '6', '7', '8', '9'][d]
}

/// A number below 100 as two digits, with a leading zero.
pub open spec fn two_digits(n: int) -> Seq<char> {
    seq![digit_char(n / 10), digit_char(n % 10)]
}

/// A second of the day as `HH:MM:SS`, on a 24-hour clock.
pub open spec fn clock_text(s: int) -> Seq<char> {
    two_digits(s / 3600) + seq![':'] + two_digits(s / 60 % 60) + seq![':'] + two_digits(s % 60)
}

/// A natural number in decimal, without leading zeros.
pub open spec fn decimal(n: nat) -> Seq<char>
    decreases n,
{
    if n < 10 {
        seq![digit_char(n as int)]
    } else {
        decimal(n / 10) + seq![digit_char((n % 10) as int)]
    }
}

/// Relies on chrono's `DateTime::<Utc>::from_timestamp`, which gives `None`
/// outside its calendar (years -262143 to 262142, from `MAX_YEAR`) and otherwise
/// the time whose second of the day is `secs.rem_euclid(86400)`, read back by
/// `Timelike::num_seconds_from_midnight`.
#[verifier::external_body]
fn utc_second_of_day(secs: i64) -> (r: Option<u32>)
    ensures
        r matches Some(s) ==> s as int == (secs as int) % (SECS_PER_DAY as int),
        0 <= secs ==> (r is Some <==> secs <= MAX_CLOCK_SECS),
{
    chrono::DateTime::from_timestamp(secs, 0).map(|dt| dt.num_seconds_from_midnight())
}

/// The text of one decimal digit.
fn digit_str(d: u32) -> (r: &'static str)
    requires
        d < 10,
    ensures
        r@ == seq![digit_char(d as int)],
{
    proof {
        reveal_strlit("0");
        reveal_strlit("1");
        reveal_strlit("2");
        reveal_strlit("3");
        reveal_strlit("4");
        reveal_strlit("5");
        reveal_strlit("6");
        reveal_strlit("7");
        reveal_strlit("8");
        reveal_strlit("9");
    }
    let r = if d == 0 {
        "0"
    } else if d == 1 {
        "1"
    } else if d == 2 {
        "2"
    } else if d == 3 {
        "3"
    } else if d == 4 {
        "4"
    } else if d == 5 {
        "5"
    } else if d == 6 {
        "6"
    } else if d == 7 {
        "7"
    } else if d == 8 {
        "8"
    } else {
        "9"
    };
    assert(r@ =~= seq![digit_char(d as int)]);
    r
}

/// Appends a number below 100 as two digits.
fn push_two_digits(out: &mut String, n: u32)
    requires
        n < 100,
    ensures
        final(out)@ == old(out)@ + two_digits(n as int),
{
    out.append(digit_str(n / 10));
    out.append(digit_str(n % 10));
    assert(final(out)@ =~= old(out)@ + two_digits(n as int));
}

/// A second of the day as `HH:MM:SS`.
pub fn format_clock(secs: u32) -> (r: String)
    requires
        secs < SECS_PER_DAY,
    ensures
        r@ == clock_text(secs as int),
{
    let mut out = String::new();
    push_two_digits(&mut out, secs / 3600);
    out.append(":");
    push_two_digits(&mut out, secs / 60 % 60);
    out.append(":");
    push_two_digits(&mut out, secs % 60);
    proof {
        reveal_strlit(":");
    }
    assert(out@ =~= clock_text(secs as int));
    out
}

/// A Unix timestamp (seconds since 1970-01-01T00:00:00Z) as the UTC time of
/// day `HH:MM:SS`; a timestamp after the end of the calendar is an error.
pub fn utc_to_time(timestamp: u64) -> (r: Result<String, WeatherError>)
    ensures
        r matches Ok(t) ==> t@ == clock_text(timestamp as int % 86400),
        r matches Err(e) ==> e == WeatherError::TimeConversion,
        r is Ok <==> timestamp <= MAX_CLOCK_SECS,
{
    if timestamp > i64::MAX as u64 {
        return Err(WeatherError::TimeConversion);
    }
    match utc_second_of_day(timestamp as i64) {
        Some(s) => Ok(format_clock(s)),
        None => Err(WeatherError::TimeConversion),
    }
}

/// A natural number in decimal.
pub fn decimal_text(n: u64) -> (r: String)
    ensures
        r@ == decimal(n as nat),
    decreases n,
{
    if n < 10 {
        String::from_str(digit_str(n as u32))
    } else {
        let mut s = decimal_text(n / 10);
        s.append(digit_str((n % 10) as u32));
        s
    }
}

} // verus!
