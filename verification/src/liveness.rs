//! Whether a held item is still at its source.
//!
//! The answer is asymmetric: only an observation of presence counts as
//! confirmation; silence and failures never do.

use vstd::prelude::*;

verus! {

/// One observation of the source.
#[derive(Debug, Clone, Copy, PartialEq, Eq, Structural)]
pub enum Presence {
    /// The source answered and the item was there.
    Present,
    /// The source answered that the item is gone.
    Gone,
    /// Anything else: a failure, an answer not understood, no answer.
    Unknown,
}

/// Proof that the source was seen holding the item. Made only by
/// [`Presence::confirmed`].
#[derive(Debug, Clone, Copy, PartialEq, Eq)]
pub struct PresenceConfirmed(());

impl Presence {
    /// The witness, when and only when presence was observed.
    pub fn confirmed(self) -> (r: Option<PresenceConfirmed>)
        ensures
            r is Some <==> self == Presence::Present,
    {
        match self {
            Presence::Present => Some(PresenceConfirmed(())),
            Presence::Gone | Presence::Unknown => None,
        }
    }
}

} // verus!
