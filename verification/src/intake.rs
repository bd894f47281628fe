//! What a person registers by hand: a source to watch, read and checked
//! before anything is written.

use vstd::prelude::*;

use crate::source::{Monitoring, MonitoringError};
use crate::timestamp::{moment_read, reads_as, rfc3339_reading, Timestamp, TimestampError};
use crate::url::{normalize_source, source_outcome, NormalizedUrl, UrlError, UrlFault};

verus! {

/// The terms of a new source, checked.
#[derive(Debug, Clone, PartialEq, Eq)]
pub struct SourceTerms {
    pub url: NormalizedUrl,
    /// Weight in the detection budget; never zero.
    pub priority: u32,
    /// Days to hold; none means never discard, never zero.
    pub hold_days: Option<u32>,
    pub monitoring: Monitoring,
}

/// Why the terms of a new source were refused.
#[derive(Debug, Clone, PartialEq, Eq)]
pub enum SourceTermsError {
    /// The URL is not one of a source.
    Url(UrlError),
    /// A weight of zero.
    Priority,
    /// A hold of zero days.
    HoldDays,
    /// A date of the period that is not RFC 3339.
    Timestamp(TimestampError),
    /// The two dates do not make a period.
    Monitoring(MonitoringError),
}

/// The text of an optional date.
pub open spec fn text_of(t: Option<&str>) -> Option<Seq<char>> {
    match t {
        Some(s) => Some(s@),
        None => None,
    }
}

/// Whether an optional date reads: an absent one always does.
pub open spec fn reads(t: Option<Seq<char>>) -> bool {
    t matches Some(s) ==> rfc3339_reading(s) is Some
}

/// Where an optional date stands in time, as a timestamp's order key.
pub open spec fn moment_of(t: Option<Seq<char>>) -> Option<int> {
    match t {
        Some(s) => Some(moment_read(s)),
        None => None,
    }
}

/// The period two read dates make, as the monitoring rule has it.
pub open spec fn period_of(from: Option<int>, until: Option<int>) -> Result<(), MonitoringError> {
    match (from, until) {
        (None, None) => Ok(()),
        (Some(f), Some(u)) => if f < u {
            Ok(())
        } else {
            Err(MonitoringError::NotOrdered)
        },
        _ => Err(MonitoringError::HalfOpen),
    }
}

fn read_date(t: Option<&str>) -> (r: Result<Option<Timestamp>, TimestampError>)
    ensures
        r is Ok <==> reads(text_of(t)),
        r matches Ok(o) ==> (o is Some <==> t is Some),
        r matches Ok(o) ==> (o matches Some(ts) ==> (t matches Some(s) && reads_as(s@, ts))),
        r matches Err(e) ==> (t matches Some(s) && e.0@ == s@),
{
    match t {
        Some(s) => match Timestamp::parse(s) {
            Ok(ts) => Ok(Some(ts)),
            Err(e) => Err(e),
        },
        None => Ok(None),
    }
}

/// Reads and checks the terms of a new source, in this order: the URL must
/// be a source's, the weight not zero, the hold not zero days, each date
/// RFC 3339 (the start first), and the two dates both present or both
/// absent, the start before the end. The first that fails is the answer.
pub fn source_terms(
    raw_url: &str,
    priority: u32,
    monitor_from: Option<&str>,
    monitor_until: Option<&str>,
    hold_days: Option<u32>,
) -> (r: Result<SourceTerms, SourceTermsError>)
    ensures
        source_outcome(raw_url@) is Err ==> (r matches Err(SourceTermsError::Url(e))
            && source_outcome(raw_url@) == Err::<Seq<char>, UrlFault>(e.fault())),
        source_outcome(raw_url@) is Ok && priority == 0 ==> r == Err::<SourceTerms, SourceTermsError>(
            SourceTermsError::Priority,
        ),
        source_outcome(raw_url@) is Ok && priority > 0 && hold_days == Some(0u32) ==> r == Err::<
            SourceTerms,
            SourceTermsError,
        >(SourceTermsError::HoldDays),
        ({
            let dates_next = source_outcome(raw_url@) is Ok && priority > 0 && hold_days != Some(0u32);
            &&& dates_next && !reads(text_of(monitor_from)) ==> (r matches Err(
                SourceTermsError::Timestamp(e),
            ) && text_of(monitor_from) == Some(e.0@))
            &&& dates_next && reads(text_of(monitor_from)) && !reads(text_of(monitor_until)) ==> (r matches Err(
                SourceTermsError::Timestamp(e),
            ) && text_of(monitor_until) == Some(e.0@))
            &&& dates_next && reads(text_of(monitor_from)) && reads(text_of(monitor_until)) ==> match period_of(
                moment_of(text_of(monitor_from)),
                moment_of(text_of(monitor_until)),
            ) {
                Ok(()) => r is Ok,
                Err(m) => r == Err::<SourceTerms, SourceTermsError>(SourceTermsError::Monitoring(m)),
            }
        }),
        r matches Ok(t) ==> {
            &&& source_outcome(raw_url@) == Ok::<Seq<char>, UrlFault>(t.url.text())
            &&& t.priority == priority
            &&& t.hold_days == hold_days
            &&& (t.monitoring is Continuous <==> monitor_from is None)
            &&& t.monitoring matches Monitoring::Period { from, until } ==> (monitor_from is Some
                && reads_as(monitor_from->0@, from) && monitor_until is Some && reads_as(
                monitor_until->0@,
                until,
            ))
        },
{
    let url = match normalize_source(raw_url) {
        Ok(u) => u,
        Err(e) => return Err(SourceTermsError::Url(e)),
    };
    if priority == 0 {
        return Err(SourceTermsError::Priority);
    }
    if hold_days == Some(0u32) {
        return Err(SourceTermsError::HoldDays);
    }
    let from = match read_date(monitor_from) {
        Ok(f) => f,
        Err(e) => return Err(SourceTermsError::Timestamp(e)),
    };
    let until = match read_date(monitor_until) {
        Ok(u) => u,
        Err(e) => return Err(SourceTermsError::Timestamp(e)),
    };
    match Monitoring::new(from, until) {
        Ok(monitoring) => Ok(SourceTerms { url, priority, hold_days, monitoring }),
        Err(m) => Err(SourceTermsError::Monitoring(m)),
    }
}

} // verus!
