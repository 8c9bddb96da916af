//! Points in time, carried together with their RFC 3339 text.

use vstd::prelude::*;
use chrono::{DateTime, Utc};
use crate::text::{opt_view, owned};

verus! {

/// The RFC 3339 text, in UTC with an explicit `+00:00` offset, of the instant
/// `secs` seconds and `nanos` nanoseconds after the Unix epoch; `None` where
/// the calendar cannot represent that instant.
pub uninterp spec fn rfc3339_text(secs: int, nanos: int) -> Option<Seq<char>>;

/// `chrono::DateTime::from_timestamp` followed by `to_rfc3339`: the text of
/// the instant, or `None` where `from_timestamp` rejects the pair as out of
/// range.
#[verifier::external_body]
fn format_rfc3339(secs: i64, nanos: u32) -> (r: Option<String>)
    ensures
        opt_view(r) == rfc3339_text(secs as int, nanos as int),
{
    match DateTime::from_timestamp(secs, nanos) {
        Some(t) => Some(t.to_rfc3339()),
        None => None,
    }
}

/// `chrono::Utc::now` with its `timestamp` and `timestamp_subsec_nanos`:
/// the seconds and nanoseconds of the system clock since the Unix epoch.
/// `now` builds its value with `from_timestamp`, so the calendar can
/// represent the pair returned.
#[verifier::external_body]
fn system_now() -> (r: (i64, u32))
    ensures
        rfc3339_text(r.0 as int, r.1 as int) is Some,
{
    let t = Utc::now();
    (t.timestamp(), t.timestamp_subsec_nanos())
}

/// The mathematical content of a [`Timestamp`].
pub struct TimestampView {
    pub secs: int,
    pub nanos: int,
    pub text: Seq<char>,
}

impl TimestampView {
    /// Whether this instant is not later than `other`.
    pub open spec fn not_after(self, other: TimestampView) -> bool {
        self.secs < other.secs || (self.secs == other.secs && self.nanos <= other.nanos)
    }
}

/// An instant in UTC that the calendar can represent, with its text.
#[derive(Debug, PartialEq, Eq)]
pub struct Timestamp {
    secs: i64,
    nanos: u32,
    text: String,
}

impl View for Timestamp {
    type V = TimestampView;

    closed spec fn view(&self) -> TimestampView {
        TimestampView { secs: self.secs as int, nanos: self.nanos as int, text: self.text@ }
    }
}

impl Clone for Timestamp {
    fn clone(&self) -> (r: Timestamp)
        ensures
            r@ == self@,
    {
        proof {
            use_type_invariant(self);
        }
        Timestamp { secs: self.secs, nanos: self.nanos, text: owned(self.text.as_str()) }
    }
}

impl Timestamp {
    /// Whether the text carried is the RFC 3339 text of the instant. This
    /// holds of every timestamp.
    #[verifier::type_invariant]
    pub open spec fn wf(&self) -> bool {
        rfc3339_text(self@.secs, self@.nanos) == Some(self@.text)
    }

    /// The instant `secs` seconds and `nanos` nanoseconds after the Unix
    /// epoch, if the calendar can represent it.
    pub fn from_unix(secs: i64, nanos: u32) -> (r: Option<Timestamp>)
        ensures
            r is Some <==> rfc3339_text(secs as int, nanos as int) is Some,
            r matches Some(t) ==> t.wf() && t@.secs == secs && t@.nanos == nanos,
    {
        match format_rfc3339(secs, nanos) {
            Some(text) => Some(Timestamp { secs, nanos, text }),
            None => None,
        }
    }

    /// The current time of the system clock.
    pub fn now() -> (r: Timestamp)
        ensures
            r.wf(),
    {
        let (secs, nanos) = system_now();
        match format_rfc3339(secs, nanos) {
            Some(text) => Timestamp { secs, nanos, text },
            None => vstd::pervasive::unreached(),
        }
    }

    /// Whole seconds since the Unix epoch.
    pub fn unix_seconds(&self) -> (r: i64)
        ensures
            r == self@.secs,
    {
        self.secs
    }

    /// Nanoseconds past the whole second.
    pub fn subsec_nanos(&self) -> (r: u32)
        ensures
            r == self@.nanos,
    {
        self.nanos
    }

    /// The RFC 3339 text of the instant.
    pub fn to_rfc3339(&self) -> (r: String)
        ensures
            r@ == self@.text,
    {
        owned(self.text.as_str())
    }

    /// Whether `self` is not later than `other`.
    pub fn not_after(&self, other: &Timestamp) -> (r: bool)
        ensures
            r == self@.not_after(other@),
    {
        self.secs < other.secs || (self.secs == other.secs && self.nanos <= other.nanos)
    }
}

} // verus!
