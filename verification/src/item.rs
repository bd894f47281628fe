//! One found item and where it stands.

use vstd::prelude::*;

use crate::content::{Content, ContentType};
use crate::source::SourceId;
use crate::state::{MediaPresence, State};
use crate::timestamp::Timestamp;
use crate::url::NormalizedUrl;

verus! {

/// The outward handle of an item; its media lives under it.
#[derive(Debug, Clone, Copy, PartialEq, Eq, Structural, Hash, PartialOrd, Ord)]
pub struct ItemId(i64);

impl ItemId {
    pub closed spec fn value(self) -> i64 {
        self.0
    }

    pub fn new(id: i64) -> (r: ItemId)
        ensures
            r.value() == id,
    {
        ItemId(id)
    }

    pub fn get(self) -> (r: i64)
        ensures
            r == self.value(),
    {
        self.0
    }
}

/// One row of the ledger.
#[derive(Debug, Clone, PartialEq, Eq)]
pub struct Item {
    pub id: ItemId,
    pub source_id: SourceId,
    pub url: NormalizedUrl,
    pub published_at: Timestamp,
    /// When a scheduled stream starts; none for anything else.
    pub scheduled_start_at: Option<Timestamp>,
    pub state: State,
    /// When the item entered its state; events that move nothing leave it.
    pub state_since: Timestamp,
    pub content: Content,
}

/// What is known when an item is found: the head of its log.
#[derive(Debug, Clone, PartialEq, Eq)]
pub struct Discovered {
    pub source_id: SourceId,
    pub url: NormalizedUrl,
    pub published_at: Timestamp,
    pub scheduled_start_at: Option<Timestamp>,
    pub content: Content,
    /// Whether there is media to acquire; the content does not say.
    pub media: MediaPresence,
}

impl Item {
    pub fn content_type(&self) -> (r: ContentType)
        ensures
            r == self.content.content_type_of(),
    {
        self.content.content_type()
    }
}

impl Discovered {
    /// The state the item is born in.
    pub fn initial_state(&self) -> (r: State)
        ensures
            self.media == MediaPresence::Present ==> r == State::Waiting,
            self.media == MediaPresence::Absent ==> r == State::Kept,
    {
        State::initial(self.media)
    }

    pub fn content_type(&self) -> (r: ContentType)
        ensures
            r == self.content.content_type_of(),
    {
        self.content.content_type()
    }
}

} // verus!
