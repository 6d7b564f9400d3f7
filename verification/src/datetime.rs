//! Timestamp parsing. The library holds timestamps as UTC epoch milliseconds;
//! chrono does the parsing behind named, trusted wrappers.

use vstd::prelude::*;

verus! {

/// What chrono's RFC 3339 parser yields for a string: the UTC timestamp in
/// epoch milliseconds, or the parse error's message.
pub uninterp spec fn rfc3339_parse(s: Seq<char>) -> Result<i64, Seq<char>>;

/// Relies on chrono's DateTime::parse_from_rfc3339 and timestamp_millis:
/// parsing an RFC 3339 string with explicit offset is a function of the
/// string alone.
#[verifier::external_body]
pub fn parse_rfc3339_millis(s: &str) -> (r: Result<i64, String>)
    ensures
        match r {
            Ok(v) => rfc3339_parse(s@) == Ok::<i64, Seq<char>>(v),
            Err(d) => rfc3339_parse(s@) == Err::<i64, Seq<char>>(d@),
        },
{
    match chrono::DateTime::parse_from_rfc3339(s) {
        Ok(dt) => Ok(dt.timestamp_millis()),
        Err(e) => Err(format!("{}", e)),
    }
}

/// What chrono's format-directed parser yields for a string and a format with
/// an explicit offset: the UTC timestamp in epoch milliseconds, or the parse
/// error's message.
pub uninterp spec fn datetime_fmt_parse(s: Seq<char>, fmt: Seq<char>) -> Result<i64, Seq<char>>;

/// Relies on chrono's DateTime::parse_from_str and timestamp_millis: parsing
/// with an explicit-offset format is a function of the two strings alone.
#[verifier::external_body]
pub fn parse_datetime_millis(s: &str, fmt: &str) -> (r: Result<i64, String>)
    ensures
        match r {
            Ok(v) => datetime_fmt_parse(s@, fmt@) == Ok::<i64, Seq<char>>(v),
            Err(d) => datetime_fmt_parse(s@, fmt@) == Err::<i64, Seq<char>>(d@),
        },
{
    match chrono::DateTime::parse_from_str(s, fmt) {
        Ok(dt) => Ok(dt.timestamp_millis()),
        Err(e) => Err(format!("{}", e)),
    }
}

/// Relies on chrono's Utc::now and timestamp_millis. Nothing is assumed of
/// the clock's value. chrono aborts when the system clock stands before the
/// Unix epoch; this wrapper inherits that.
#[verifier::external_body]
pub fn now_millis() -> i64 {
    chrono::Utc::now().timestamp_millis()
}

} // verus!
