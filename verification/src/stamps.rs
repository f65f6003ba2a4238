//! Record identifiers and timestamps, from the `uuid` and `chrono` crates.
use vstd::prelude::*;

verus! {

/// The instant an RFC 3339 text denotes, as whole seconds since the Unix epoch
/// and the nanoseconds within that second; `None` for a text that is not
/// RFC 3339.
pub uninterp spec fn rfc3339_instant(text: Seq<char>) -> Option<(i64, u32)>;

/// Calls `chrono::DateTime::parse_from_rfc3339` and reads the parsed instant
/// with `timestamp` and `timestamp_subsec_nanos`. Claimed: the result is
/// `rfc3339_instant` of the text, a function of the text alone.
#[verifier::external_body]
pub(crate) fn parse_rfc3339_instant(text: &str) -> (r: Option<(i64, u32)>)
    ensures
        r == rfc3339_instant(text@),
{
    match chrono::DateTime::parse_from_rfc3339(text) {
        Ok(instant) => Some((instant.timestamp(), instant.timestamp_subsec_nanos())),
        Err(_) => None,
    }
}

/// Calls `chrono::Utc::now()` and formats it with `to_rfc3339`. Nothing is
/// claimed of the text: it is the time of the call.
#[verifier::external_body]
pub(crate) fn now_rfc3339() -> (r: String) {
    chrono::Utc::now().to_rfc3339()
}

/// A reading of the clock: the time of the reading as RFC 3339 text. Only
/// [`ClockReading::now`] makes one, so a reading always holds the clock's
/// value at some call.
#[derive(Debug, Clone)]
pub struct ClockReading {
    text: String,
}

impl View for ClockReading {
    type V = Seq<char>;

    closed spec fn view(&self) -> Seq<char> {
        self.text@
    }
}

impl ClockReading {
    /// Reads the clock.
    pub fn now() -> (r: ClockReading) {
        ClockReading { text: now_rfc3339() }
    }

    /// The text of the reading.
    pub fn text(&self) -> (r: &str)
        ensures
            r@ == self@,
    {
        self.text.as_str()
    }
}

/// Calls `uuid::Uuid::new_v4()` and formats it with `to_string`, which writes
/// the hyphenated lower-case form. Claimed: the text has 36 characters;
/// nothing else, the identifier being random.
#[verifier::external_body]
pub(crate) fn new_uuid() -> (r: String)
    ensures
        r@.len() == 36,
{
    uuid::Uuid::new_v4().to_string()
}

} // verus!
