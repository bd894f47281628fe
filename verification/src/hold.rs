//! How long a held item is kept: the deadline that a source's hold days set
//! from the moment the item started being held.

use vstd::prelude::*;

use crate::timestamp::{Timestamp, DAY, LATEST};

verus! {

/// The moment a held item's keeping ends: the time it became held plus the
/// source's hold days.
///
/// It is built from a number of days of at least one, so a source without
/// hold days, whose items are never discarded, has no deadline at all.
#[derive(Debug, Clone, Copy, PartialEq, Eq)]
pub struct HoldDeadline(Timestamp);

/// Witness that a hold's deadline has passed. Only [`HoldDeadline::reached`]
/// makes one.
#[derive(Debug, Clone, Copy, PartialEq, Eq)]
pub struct DeadlineReached(());

impl HoldDeadline {
    /// The deadline's instant and offset.
    pub closed spec fn moment(self) -> Timestamp {
        self.0
    }

    /// `hold_days` days after `state_since`, in the same offset.
    pub fn new(state_since: Timestamp, hold_days: u32) -> (r: HoldDeadline)
        requires
            hold_days >= 1,
            state_since.instant() + DAY * hold_days <= LATEST,
        ensures
            r.moment().instant() == state_since.instant() + DAY * hold_days,
            r.moment().offset_secs() == state_since.offset_secs(),
            !r.moment().is_leap(),
    {
        match state_since.plus_days(hold_days) {
            Some(t) => HoldDeadline(t),
            None => {
                proof {
                    assert(false);
                }
                HoldDeadline(state_since)
            },
        }
    }

    /// The deadline.
    pub fn at(self) -> (r: Timestamp)
        ensures
            r == self.moment(),
    {
        self.0
    }

    /// A witness, only when `now` is the deadline or later.
    pub fn reached(self, now: Timestamp) -> (r: Option<DeadlineReached>)
        ensures
            r is Some <==> self.moment().order_key() <= now.order_key(),
    {
        if self.0.is_at_or_before(&now) {
            Some(DeadlineReached(()))
        } else {
            None
        }
    }
}

} // verus!
