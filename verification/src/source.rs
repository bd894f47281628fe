//! Who is watched, where, and what is not taken in.

use vstd::prelude::*;

use crate::content::ContentType;
use crate::state::{holds_for, Hold, HoldTooFar};
use crate::timestamp::Timestamp;
use crate::url::NormalizedUrl;

verus! {

/// The owner of sources.
#[derive(Debug, Clone, Copy, PartialEq, Eq, Structural, Hash, PartialOrd, Ord)]
pub struct PersonId(i64);

/// A watched account.
#[derive(Debug, Clone, Copy, PartialEq, Eq, Structural, Hash, PartialOrd, Ord)]
pub struct SourceId(i64);

/// A rule that keeps a type out.
#[derive(Debug, Clone, Copy, PartialEq, Eq, Structural, Hash, PartialOrd, Ord)]
pub struct ExcludeId(i64);

impl PersonId {
    pub closed spec fn value(self) -> i64 {
        self.0
    }

    pub fn new(id: i64) -> (r: PersonId)
        ensures
            r.value() == id,
    {
        PersonId(id)
    }

    pub fn get(self) -> (r: i64)
        ensures
            r == self.value(),
    {
        self.0
    }
}

impl SourceId {
    pub closed spec fn value(self) -> i64 {
        self.0
    }

    pub fn new(id: i64) -> (r: SourceId)
        ensures
            r.value() == id,
    {
        SourceId(id)
    }

    pub fn get(self) -> (r: i64)
        ensures
            r == self.value(),
    {
        self.0
    }
}

impl ExcludeId {
    pub closed spec fn value(self) -> i64 {
        self.0
    }

    pub fn new(id: i64) -> (r: ExcludeId)
        ensures
            r.value() == id,
    {
        ExcludeId(id)
    }

    pub fn get(self) -> (r: i64)
        ensures
            r == self.value(),
    {
        self.0
    }
}

/// The owner of sources: one person's channel and account belong together.
#[derive(Debug, Clone, PartialEq, Eq)]
pub struct Person {
    pub id: PersonId,
    pub name: String,
}

/// When a source is watched.
#[derive(Debug, Clone, Copy, PartialEq, Eq)]
pub enum Monitoring {
    /// Always.
    Continuous,
    /// From `from` up to, not including, `until`.
    Period { from: Timestamp, until: Timestamp },
}

/// Two columns that do not make a period.
#[derive(Debug, Clone, Copy, PartialEq, Eq, Structural)]
pub enum MonitoringError {
    /// One end is set and the other is not.
    HalfOpen,
    /// The end does not come after the start.
    NotOrdered,
}

/// A watched account on one platform.
#[derive(Debug, Clone, PartialEq, Eq)]
pub struct Source {
    pub id: SourceId,
    pub person_id: PersonId,
    /// The canonical URL of the account, by its immutable identifier.
    pub url: NormalizedUrl,
    pub enabled: bool,
    /// Registered at; items from before are not watched.
    pub created_at: Timestamp,
    /// Days to hold what is acquired; none means never discard.
    pub hold_days: Option<u32>,
    /// Weight in the detection budget.
    pub priority: u32,
    pub monitoring: Monitoring,
}

/// A type that is not taken in, for one source or for all.
#[derive(Debug, Clone, PartialEq, Eq)]
pub struct Exclude {
    pub id: ExcludeId,
    /// The source it applies to; none means every source.
    pub source_id: Option<SourceId>,
    pub content_type: ContentType,
    pub enabled: bool,
}

impl Monitoring {
    /// The period the two columns describe: none for both empty, a period
    /// for both set with the start before the end.
    pub fn new(from: Option<Timestamp>, until: Option<Timestamp>) -> (r: Result<
        Monitoring,
        MonitoringError,
    >)
        ensures
            (from is None && until is None) ==> r == Ok::<Monitoring, MonitoringError>(
                Monitoring::Continuous,
            ),
            (from is Some) != (until is Some) ==> r == Err::<Monitoring, MonitoringError>(
                MonitoringError::HalfOpen,
            ),
            from matches Some(f) ==> (until matches Some(u) ==> (if f.order_key() < u.order_key() {
                r == Ok::<Monitoring, MonitoringError>(Monitoring::Period { from: f, until: u })
            } else {
                r == Err::<Monitoring, MonitoringError>(MonitoringError::NotOrdered)
            })),
    {
        match (from, until) {
            (None, None) => Ok(Monitoring::Continuous),
            (Some(from), Some(until)) => {
                if from.is_before(&until) {
                    Ok(Monitoring::Period { from, until })
                } else {
                    Err(MonitoringError::NotOrdered)
                }
            },
            (Some(_), None) | (None, Some(_)) => Err(MonitoringError::HalfOpen),
        }
    }

    pub open spec fn covers_spec(self, now: Timestamp) -> bool {
        match self {
            Monitoring::Continuous => true,
            Monitoring::Period { from, until } => from.order_key() <= now.order_key()
                && now.order_key() < until.order_key(),
        }
    }

    /// Whether `now` falls in the period: the start counts, the end does not.
    pub fn covers(self, now: Timestamp) -> (r: bool)
        ensures
            r == self.covers_spec(now),
    {
        match self {
            Monitoring::Continuous => true,
            Monitoring::Period { from, until } => from.is_at_or_before(&now) && now.is_before(&until),
        }
    }

    /// The two columns the period is written back as.
    pub fn columns(self) -> (r: (Option<Timestamp>, Option<Timestamp>))
        ensures
            self is Continuous ==> r.0 is None && r.1 is None,
            self matches Monitoring::Period { from, until } ==> r.0 == Some(from) && r.1 == Some(
                until,
            ),
    {
        match self {
            Monitoring::Continuous => (None, None),
            Monitoring::Period { from, until } => (Some(from), Some(until)),
        }
    }
}

/// A period read from its two columns and written back gives the same two
/// columns; a period that ends no later than it starts cannot be made.
pub proof fn lemma_period_round_trip(from: Timestamp, until: Timestamp)
    ensures
        from.order_key() < until.order_key() ==> (Monitoring::Period { from, until }).covers_spec(from),
        !(Monitoring::Period { from, until }).covers_spec(until),
{
}

impl Source {
    /// Whether the source is read at `now`: enabled, and inside its period.
    pub fn watched_at(&self, now: Timestamp) -> (r: bool)
        ensures
            r == (self.enabled && self.monitoring.covers_spec(now)),
    {
        self.enabled && self.monitoring.covers(now)
    }

    /// The hold for what is acquired now, fixed at the moment acquisition ended.
    pub fn hold_from(&self, acquired_at: Timestamp) -> (r: Result<Hold, HoldTooFar>)
        ensures
            holds_for(self.hold_days, acquired_at, r),
    {
        Hold::from_days(self.hold_days, acquired_at)
    }
}

impl Exclude {
    pub open spec fn covers_spec(self, source_id: SourceId, content_type: ContentType) -> bool {
        &&& self.enabled
        &&& self.content_type == content_type
        &&& match self.source_id {
            None => true,
            Some(scoped) => scoped == source_id,
        }
    }

    /// Whether the rule keeps out this type from this source.
    pub fn covers(&self, source_id: SourceId, content_type: ContentType) -> (r: bool)
        ensures
            r == self.covers_spec(source_id, content_type),
    {
        self.enabled && self.content_type == content_type && match self.source_id {
            None => true,
            Some(scoped) => scoped == source_id,
        }
    }
}

} // verus!
