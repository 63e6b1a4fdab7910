//! Reading the date strings that feeds carry.

use vstd::prelude::*;
use crate::models::Timestamp;

verus! {

/// The instant that `chrono` reads from a date in RFC 2822 form, or `None`
/// where it rejects the text.
pub uninterp spec fn rfc2822_instant(text: Seq<char>) -> Option<Timestamp>;

/// The instant that `chrono` reads from a date in its relaxed ISO 8601 /
/// RFC 3339 form, or `None` where it rejects the text.
pub uninterp spec fn rfc3339_instant(text: Seq<char>) -> Option<Timestamp>;

/// Calls `chrono::DateTime::parse_from_rfc2822` and moves the result to UTC.
/// Trusted: the outcome depends on the text alone, so it is given the name
/// [`rfc2822_instant`]; nothing else is claimed of it.
#[verifier::external_body]
fn read_rfc2822(text: &str) -> (r: Option<Timestamp>)
    ensures
        r == rfc2822_instant(text@),
{
    match chrono::DateTime::parse_from_rfc2822(text) {
        Ok(d) => {
            let utc = d.with_timezone(&chrono::Utc);
            Some(Timestamp { secs: utc.timestamp(), nanos: utc.timestamp_subsec_nanos() })
        },
        Err(_) => None,
    }
}

/// Calls `str::parse::<chrono::DateTime<chrono::Utc>>`. Trusted: the outcome
/// depends on the text alone, so it is given the name [`rfc3339_instant`];
/// nothing else is claimed of it.
#[verifier::external_body]
fn read_rfc3339(text: &str) -> (r: Option<Timestamp>)
    ensures
        r == rfc3339_instant(text@),
{
    match text.parse::<chrono::DateTime<chrono::Utc>>() {
        Ok(d) => Some(Timestamp { secs: d.timestamp(), nanos: d.timestamp_subsec_nanos() }),
        Err(_) => None,
    }
}

/// Calls `chrono::Utc::now`. Trusted, and nothing is claimed of the result:
/// it is whatever the system clock says.
#[verifier::external_body]
pub(crate) fn now() -> Timestamp {
    let d = chrono::Utc::now();
    Timestamp { secs: d.timestamp(), nanos: d.timestamp_subsec_nanos() }
}

/// The instant a date string stands for: its RFC 2822 reading where there is
/// one, else its ISO 8601 reading, else none.
pub open spec fn date_of(text: Seq<char>) -> Option<Timestamp> {
    match rfc2822_instant(text) {
        Some(t) => Some(t),
        None => rfc3339_instant(text),
    }
}

/// The instant an optional date string stands for.
pub open spec fn optional_date_of(text: Option<Seq<char>>) -> Option<Timestamp> {
    match text {
        Some(t) => date_of(t),
        None => None,
    }
}

/// Reads a date, trying RFC 2822 first and ISO 8601 second. A text that is
/// neither gives `None`, never an error.
pub fn parse_date(date: &str) -> (r: Option<Timestamp>)
    ensures
        r == date_of(date@),
{
    match read_rfc2822(date) {
        Some(t) => Some(t),
        None => read_rfc3339(date),
    }
}

/// Reads a date that may be absent.
pub fn parse_optional_date(date: &Option<String>) -> (r: Option<Timestamp>)
    ensures
        r == optional_date_of(date.deep_view()),
{
    match date {
        Some(text) => parse_date(text.as_str()),
        None => None,
    }
}

} // verus!
