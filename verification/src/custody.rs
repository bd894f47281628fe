//! Keeping held items: one liveness check of one item, and what it leads to.
//!
//! The check is asymmetric. Wrongly discarding loses media for good;
//! wrongly holding only holds longer. So only a confirmed presence past the
//! deadline discards, only a certain absence keeps, and everything else
//! leaves the item held for the next check.

use vstd::prelude::*;

use crate::adapter::AdapterError;
use crate::item::ItemId;
use crate::liveness::Presence;
use crate::state::{Event, State, StateName};
use crate::timestamp::Timestamp;

verus! {

/// The keeper of held items' media, under `media_dir`.
#[derive(Debug, Clone, PartialEq, Eq)]
pub struct Custody {
    pub media_dir: String,
}

/// Why a check could not be made.
#[derive(Debug, Clone, PartialEq, Eq)]
pub enum CustodyError {
    /// The item is not held.
    NotHolding { id: ItemId, state: StateName },
    /// The check failed in a way that says nothing of the item.
    Adapter(AdapterError),
}

/// What a check observed: the probe's answer, a failure that proves the
/// item gone, or unknown when nothing can check this item.
pub open spec fn observed_of(probe: Option<Result<Presence, AdapterError>>) -> Option<Presence> {
    match probe {
        None => Some(Presence::Unknown),
        Some(Ok(p)) => Some(p),
        Some(Err(f)) => if f.presence_of() == Presence::Gone {
            Some(Presence::Gone)
        } else {
            None
        },
    }
}

impl Custody {
    pub fn new(media_dir: String) -> (r: Custody)
        ensures
            r.media_dir@ == media_dir@,
    {
        Custody { media_dir }
    }

    /// The event one check of a held item leads to: none when nothing
    /// moves. Present at or past the deadline: held to the deadline.
    /// Present before it: a confirmation. Gone: gone. Unknown: nothing.
    /// A failed check that proves nothing is passed on.
    pub fn decide(
        &self,
        id: ItemId,
        state: &State,
        probe: Option<Result<Presence, AdapterError>>,
        now: Timestamp,
    ) -> (r: Result<Option<Event>, CustodyError>)
        ensures
            !(state is Holding) ==> (r matches Err(CustodyError::NotHolding { id: i, state: n })
                && i == id && n == state.name_of()),
            state matches State::Holding { until } ==> match observed_of(probe) {
                None => probe matches Some(Err(f)) && r == Err::<Option<Event>, CustodyError>(
                    CustodyError::Adapter(f),
                ),
                Some(Presence::Present) => if until.order_key() <= now.order_key() {
                    r matches Ok(Some(Event::HeldToDeadline(_)))
                } else {
                    r matches Ok(Some(Event::PresenceConfirmed(_)))
                },
                Some(Presence::Gone) => r == Ok::<Option<Event>, CustodyError>(Some(Event::SourceGone)),
                Some(Presence::Unknown) => r == Ok::<Option<Event>, CustodyError>(None),
            },
    {
        let until = match state {
            State::Holding { until } => *until,
            _ => return Err(CustodyError::NotHolding { id, state: state.name() }),
        };
        let observed = match probe {
            None => Presence::Unknown,
            Some(Ok(p)) => p,
            Some(Err(failure)) => {
                if failure.presence() == Presence::Gone {
                    Presence::Gone
                } else {
                    return Err(CustodyError::Adapter(failure));
                }
            },
        };
        match observed.confirmed() {
            Some(witness) => {
                if until.is_at_or_before(&now) {
                    Ok(Some(Event::HeldToDeadline(witness)))
                } else {
                    Ok(Some(Event::PresenceConfirmed(witness)))
                }
            },
            None => {
                if observed == Presence::Gone {
                    Ok(Some(Event::SourceGone))
                } else {
                    Ok(None)
                }
            },
        }
    }
}

} // verus!
