use vstd::prelude::*;
use crate::json::JsonValue;
use crate::values::Decode;

verus! {

/// What `time` reads from RFC 3339 text: Unix seconds, nanosecond, and UTC
/// offset in seconds.
pub uninterp spec fn rfc3339_parts(s: Seq<char>) -> Option<(i64, u32, i32)>;

/// What `time` reads from a date in the `[year]-[month]-[day]` format: year,
/// month, day.
pub uninterp spec fn date_parts(s: Seq<char>) -> Option<(i32, u8, u8)>;

/// Relies on `time::OffsetDateTime::parse` with the RFC 3339 format: the
/// result depends on the text alone, and its nanosecond is below one second.
#[verifier::external_body]
fn parse_rfc3339(s: &str) -> (r: Option<(i64, u32, i32)>)
    ensures
        r == rfc3339_parts(s@),
        r matches Some((_, n, _)) ==> n < 1_000_000_000,
{
    match time::OffsetDateTime::parse(s, &time::format_description::well_known::Rfc3339) {
        Ok(t) => Some((t.unix_timestamp(), t.nanosecond(), t.offset().whole_seconds())),
        Err(_) => None,
    }
}

/// Relies on `time::Date::parse` with the `[year]-[month]-[day]` format that
/// `time` itself reads dates with (the format is built by
/// `time::format_description::parse`, which accepts that fixed text): the
/// result depends on the text alone, with a month in `1..=12` and a day in
/// `1..=31`.
#[verifier::external_body]
fn parse_date(s: &str) -> (r: Option<(i32, u8, u8)>)
    ensures
        r == date_parts(s@),
        r matches Some((_, m, d)) ==> 1 <= m <= 12 && 1 <= d <= 31,
{
    let format = time::format_description::parse("[year]-[month]-[day]").ok()?;
    match time::Date::parse(s, &format) {
        Ok(d) => Some((d.year(), u8::from(d.month()), d.day())),
        Err(_) => None,
    }
}

/// A moment written on the wire as RFC 3339 text, kept with its UTC offset.
#[derive(Clone, Copy, Debug, PartialEq, Eq, Structural)]
pub struct DateTime {
    pub unix_seconds: i64,
    pub nanosecond: u32,
    pub offset_seconds: i32,
}

/// A calendar date, written on the wire as `YYYY-MM-DD`.
#[derive(Clone, Copy, Debug, PartialEq, Eq, Structural)]
pub struct Date {
    pub year: i32,
    pub month: u8,
    pub day: u8,
}

impl Decode for DateTime {
    open spec fn decodes(v: JsonValue, x: Self) -> bool {
        v matches JsonValue::Str(s) && rfc3339_parts(s@) == Some(
            (x.unix_seconds, x.nanosecond, x.offset_seconds),
        )
    }

    fn decode(v: &JsonValue) -> (r: Option<Self>) {
        match v {
            JsonValue::Str(s) => match parse_rfc3339(s.as_str()) {
                Some((unix_seconds, nanosecond, offset_seconds)) => Some(
                    DateTime { unix_seconds, nanosecond, offset_seconds },
                ),
                None => None,
            },
            _ => None,
        }
    }
}

impl Decode for Date {
    open spec fn decodes(v: JsonValue, x: Self) -> bool {
        v matches JsonValue::Str(s) && date_parts(s@) == Some((x.year, x.month, x.day))
    }

    fn decode(v: &JsonValue) -> (r: Option<Self>) {
        match v {
            JsonValue::Str(s) => match parse_date(s.as_str()) {
                Some((year, month, day)) => Some(Date { year, month, day }),
                None => None,
            },
            _ => None,
        }
    }
}

} // verus!
