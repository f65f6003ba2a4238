//! The rolling summary of a session's older turns. A summary is valid only
//! while the message it covers through still exists.
use vstd::prelude::*;

verus! {

/// A session's rolling summary and the last message it covers.
#[derive(Debug, Clone)]
pub struct SessionSummaryRecord {
    pub summary: String,
    pub covered_through_message_id: String,
}

/// What reading a session's summary comes to.
#[derive(Debug, Clone)]
pub enum SummaryReading {
    /// No summary is stored.
    Absent,
    /// The summary is valid and is returned.
    Valid(SessionSummaryRecord),
    /// The summary's anchor message is gone: the row is deleted and nothing
    /// is returned.
    Stale,
}

/// Decides a summary read from the stored row and whether its anchor
/// message still exists in the session.
pub fn summary_reading(stored: Option<SessionSummaryRecord>, anchor_exists: bool) -> (r:
    SummaryReading)
    ensures
        match stored {
            None => r is Absent,
            Some(rec) => if anchor_exists {
                r matches SummaryReading::Valid(v) && v.summary@ == rec.summary@
                    && v.covered_through_message_id@ == rec.covered_through_message_id@
            } else {
                r is Stale
            },
        },
{
    match stored {
        None => SummaryReading::Absent,
        Some(rec) => if anchor_exists {
            SummaryReading::Valid(rec)
        } else {
            SummaryReading::Stale
        },
    }
}

impl SummaryReading {
    /// The summary a read returns.
    pub fn into_record(self) -> (r: Option<SessionSummaryRecord>)
        ensures
            match self {
                SummaryReading::Valid(v) => r matches Some(x) && x.summary@ == v.summary@
                    && x.covered_through_message_id@ == v.covered_through_message_id@,
                _ => r is None,
            },
    {
        match self {
            SummaryReading::Valid(v) => Some(v),
            _ => None,
        }
    }

    /// Whether the stored row is to be deleted.
    pub fn deletes_row(&self) -> (r: bool)
        ensures
            r == (*self is Stale),
    {
        match self {
            SummaryReading::Stale => true,
            _ => false,
        }
    }
}

} // verus!
