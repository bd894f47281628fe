//! The free-space threshold in front of acquisition.
//!
//! It is looked at before an acquisition starts: running short halfway leaves
//! a half-written file and a row stuck in `acquiring`. While there is too little
//! room, items simply stay `waiting`; nothing counts as a failure.

use vstd::prelude::*;

verus! {

/// One gigabyte. Settings speak in gigabytes, the comparison in bytes.
pub const GB: u64 = 1073741824;

/// What the free space allows.
#[derive(Debug, Clone, Copy, PartialEq, Eq, Structural)]
pub enum Room {
    /// Acquisition may start.
    Enough,
    /// Not enough: nothing starts until someone frees space or lowers the
    /// setting.
    Short { available: u64, required: u64 },
}

/// The bytes a setting in gigabytes asks for, held at `u64::MAX` rather than
/// wrapping around.
pub open spec fn required_bytes(min_free_gb: u64) -> u64 {
    if min_free_gb * GB <= u64::MAX {
        (min_free_gb * GB) as u64
    } else {
        u64::MAX
    }
}

impl Room {
    /// Weighs the measured free space against the setting. The only place
    /// where gigabytes become bytes.
    pub fn decide(available: u64, min_free_gb: u64) -> (r: Room)
        ensures
            available >= required_bytes(min_free_gb) ==> r == Room::Enough,
            available < required_bytes(min_free_gb) ==> r == (Room::Short {
                available,
                required: required_bytes(min_free_gb),
            }),
    {
        let required = match min_free_gb.checked_mul(GB) {
            Some(bytes) => bytes,
            None => u64::MAX,
        };
        if available >= required {
            Room::Enough
        } else {
            Room::Short { available, required }
        }
    }

    pub fn is_enough(self) -> (r: bool)
        ensures
            r <==> self == Room::Enough,
    {
        match self {
            Room::Enough => true,
            Room::Short { .. } => false,
        }
    }
}

/// A setting so large that its bytes do not fit keeps acquisition stopped for
/// every measurement short of the largest.
pub proof fn lemma_no_wrap(available: u64, min_free_gb: u64)
    requires
        min_free_gb * GB > u64::MAX,
        available < u64::MAX,
    ensures
        required_bytes(min_free_gb) == u64::MAX,
        available < required_bytes(min_free_gb),
{
}

/// A zero setting never stops acquisition.
pub proof fn lemma_zero_lets_everything_through(available: u64)
    ensures
        available >= required_bytes(0),
{
}

} // verus!
