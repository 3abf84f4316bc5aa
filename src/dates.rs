use vstd::prelude::*;
use crate::types::Timestamp;

verus! {

/// Full ISO 8601 / RFC 3339 date and time, with offset.
pub const ISO_FORMAT: &'static str = "%+";

/// Date and time without an offset, read as UTC.
pub const DATE_ONLY_FORMAT: &'static str = "%Y-%m-%dT%H:%M:%S";

/// What chrono's `NaiveDateTime::parse_from_str` makes of `text` under
/// `format`, as seconds and nanoseconds since the Unix epoch (UTC).
pub uninterp spec fn naive_parse(text: Seq<char>, format: Seq<char>) -> Option<(i64, u32)>;

/// The text chrono's `DateTime::<Utc>::format` gives a point in time under
/// `format`, where chrono can represent that point.
pub uninterp spec fn utc_format(seconds: i64, nanos: u32, format: Seq<char>) -> Option<Seq<char>>;

/// Relies on chrono's `NaiveDateTime::parse_from_str`, whose result depends
/// on the text and the format alone; the parsed time is read as UTC.
#[verifier::external_body]
fn parse_naive(text: &str, format: &str) -> (r: Option<(i64, u32)>)
    ensures
        r == naive_parse(text@, format@),
{
    chrono::NaiveDateTime::parse_from_str(text, format).ok().map(
        |d| (d.and_utc().timestamp(), d.and_utc().timestamp_subsec_nanos()),
    )
}

/// Relies on chrono's `DateTime::from_timestamp` and `DateTime::format`:
/// the time's text under `format`, or `None` where the time is out of
/// chrono's range. Only the full ISO format is admitted: chrono panics while
/// writing a format string it cannot read.
#[verifier::external_body]
fn format_utc(seconds: i64, nanos: u32, format: &str) -> (r: Option<String>)
    requires
        format@ == ISO_FORMAT@,
    ensures
        r is None <==> utc_format(seconds, nanos, format@) is None,
        r is Some ==> utc_format(seconds, nanos, format@) == Some(r->Some_0@),
{
    chrono::DateTime::from_timestamp(seconds, nanos).map(|d| d.format(format).to_string())
}

/// Reading of a date text: the full ISO format where the text has it, else
/// the offset-less format, else nothing.
pub open spec fn spec_parse_date(text: Seq<char>) -> Option<Timestamp> {
    match naive_parse(text, ISO_FORMAT@) {
        Some((s, n)) => Some(Timestamp { seconds: s, nanos: n }),
        None => match naive_parse(text, DATE_ONLY_FORMAT@) {
            Some((s, n)) => Some(Timestamp { seconds: s, nanos: n }),
            None => None,
        },
    }
}

/// The date that two readings of a text give: the full-ISO reading where
/// there is one, else the offset-less one.
pub fn pick_date(iso: Option<(i64, u32)>, offsetless: Option<(i64, u32)>) -> (r: Option<Timestamp>)
    ensures
        iso is Some ==> r == Some(Timestamp { seconds: iso->Some_0.0, nanos: iso->Some_0.1 }),
        iso is None && offsetless is Some ==> r == Some(
            Timestamp { seconds: offsetless->Some_0.0, nanos: offsetless->Some_0.1 },
        ),
        iso is None && offsetless is None ==> r is None,
{
    match iso {
        Some((s, n)) => Some(Timestamp { seconds: s, nanos: n }),
        None => match offsetless {
            Some((s, n)) => Some(Timestamp { seconds: s, nanos: n }),
            None => None,
        },
    }
}

/// Reads a date text: in the full ISO format, or failing that without an
/// offset (as UTC). `None` where neither format fits.
pub fn deserialize_date(text: &str) -> (r: Option<Timestamp>)
    ensures
        r == spec_parse_date(text@),
{
    let iso = parse_naive(text, ISO_FORMAT);
    let offsetless = match iso {
        Some(_) => None,
        None => parse_naive(text, DATE_ONLY_FORMAT),
    };
    pick_date(iso, offsetless)
}

/// The text of an optional date in the full ISO format; `None` for no date,
/// or for a time chrono cannot represent.
pub fn serialize_date(date: Option<Timestamp>) -> (r: Option<String>)
    ensures
        date is None ==> r is None,
        date is Some ==> (r is None <==> utc_format(date->Some_0.seconds, date->Some_0.nanos, ISO_FORMAT@) is None),
        date is Some && r is Some ==> utc_format(date->Some_0.seconds, date->Some_0.nanos, ISO_FORMAT@)
            == Some(r->Some_0@),
{
    match date {
        Some(t) => format_utc(t.seconds, t.nanos, ISO_FORMAT),
        None => None,
    }
}

} // verus!
