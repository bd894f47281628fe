//! The vocabulary of the outside world: what an external tool can fail with,
//! the calls it is asked for, and the table of which tool answers which.
//!
//! Building an argument list, reading a tool's output and running the tool
//! are kept apart, since each breaks for its own reason: a tool's flags
//! change, its output format changes, or the operating system has its say.
//! The first two are here; running stays with the program around the library.

pub mod gallerydl;
pub mod invocation;
pub mod route;
pub mod rss;
pub mod tools;
pub mod whisper;
pub mod ytdlp;

use vstd::prelude::*;

use crate::content::{Content, ContentType};
use crate::liveness::Presence;
use crate::state::MediaPresence;
use crate::text;
use crate::timestamp::Timestamp;
use crate::url::NormalizedUrl;

verus! {

/// How an external tool failed to do its work.
///
/// The kinds are kept apart: whether an item is gone has to be told from
/// whether it is merely unknown.
#[derive(Debug, Clone, PartialEq, Eq)]
pub enum AdapterError {
    /// The tool could not be started; `detail` is what the system said.
    Launch { program: String, detail: String },
    /// Its output could not be read: the tool has probably changed.
    Parse { program: String, detail: String },
    /// The source has certainly lost the item.
    Unavailable { url: String },
    /// Cookies could not be used: expired, or the configured browser is not
    /// there. A matter for the whole platform, not for one item.
    Unauthenticated { detail: String },
    /// A passing failure; the next round tries again.
    Transient { program: String, detail: String },
    /// Turned away. Kept apart from passing failures so that it is not
    /// retried at once; `retry_after_secs` is the wait the other side asked
    /// for, if it named one.
    Rejected { program: String, detail: String, retry_after_secs: Option<u64> },
}

/// One item found at a source, before it becomes a row of the ledger.
#[derive(Debug, Clone, PartialEq, Eq)]
pub struct Found {
    pub url: NormalizedUrl,
    pub published_at: Timestamp,
    /// When a scheduled stream is to start; none for anything else.
    pub scheduled_start_at: Option<Timestamp>,
    pub content: Content,
    /// Whether there is media to acquire.
    pub media: MediaPresence,
}

impl Found {
    pub fn content_type(&self) -> (r: ContentType)
        ensures
            r == self.content.content_type_of(),
    {
        self.content.content_type()
    }
}

/// The way out that an outside call takes.
#[derive(Debug, Clone, Copy, PartialEq, Eq, Structural, Hash, PartialOrd, Ord)]
pub enum Route {
    /// Reading a source once.
    Discover,
    /// Taking one item's metadata.
    Describe,
    /// Bringing an item's media home.
    Acquire,
    /// Checking that a source still has an item.
    Probe,
}

impl Route {
    /// Every route.
    pub fn every() -> (r: [Route; 4])
        ensures
            r@ == seq![Route::Discover, Route::Describe, Route::Acquire, Route::Probe],
    {
        [Route::Discover, Route::Describe, Route::Acquire, Route::Probe]
    }
}

/// The sign that a route's turn has come; dropping it frees the slot. The
/// scheduler that decides the order implements it.
pub trait Permit {
    /// Tells how the call went; a refusal closes the route for a while.
    fn report(&self, result: Result<(), &AdapterError>);
}

impl AdapterError {
    /// What a liveness check learns from the failure: gone only when the
    /// source certainly lost the item, unknown for everything else.
    pub open spec fn presence_of(self) -> Presence {
        match self {
            AdapterError::Unavailable { .. } => Presence::Gone,
            _ => Presence::Unknown,
        }
    }

    /// What a liveness check learns from the failure.
    pub fn presence(&self) -> (r: Presence)
        ensures
            r == self.presence_of(),
    {
        match self {
            AdapterError::Unavailable { .. } => Presence::Gone,
            AdapterError::Launch { .. } | AdapterError::Parse { .. }
            | AdapterError::Unauthenticated { .. } | AdapterError::Transient { .. }
            | AdapterError::Rejected { .. } => Presence::Unknown,
        }
    }

    /// The message shown to a person.
    pub open spec fn message_of(self) -> Seq<char> {
        match self {
            AdapterError::Launch { program, .. } => program@ + " を起動できない"@,
            AdapterError::Parse { program, detail } => program@ + " の出力を読めない: "@ + detail@,
            AdapterError::Unavailable { url } => "配信元に無い: "@ + url@,
            AdapterError::Unauthenticated { detail } =>
                "cookie を使えない（設定の auth.cookies_from を確かめる）: "@ + detail@,
            AdapterError::Transient { program, detail } => program@ + " が一時的に失敗した: "@
                + detail@,
            AdapterError::Rejected { program, detail, .. } => program@ + " に断られた: "@
                + detail@,
        }
    }

    /// The message shown to a person.
    pub fn message(&self) -> (r: String)
        ensures
            r@ == self.message_of(),
    {
        let mut v: Vec<char> = Vec::new();
        match self {
            AdapterError::Launch { program, .. } => {
                text::append(&mut v, program.as_str());
                text::append(&mut v, " を起動できない");
            },
            AdapterError::Parse { program, detail } => {
                text::append(&mut v, program.as_str());
                text::append(&mut v, " の出力を読めない: ");
                text::append(&mut v, detail.as_str());
            },
            AdapterError::Unavailable { url } => {
                text::append(&mut v, "配信元に無い: ");
                text::append(&mut v, url.as_str());
            },
            AdapterError::Unauthenticated { detail } => {
                text::append(&mut v, "cookie を使えない（設定の auth.cookies_from を確かめる）: ");
                text::append(&mut v, detail.as_str());
            },
            AdapterError::Transient { program, detail } => {
                text::append(&mut v, program.as_str());
                text::append(&mut v, " が一時的に失敗した: ");
                text::append(&mut v, detail.as_str());
            },
            AdapterError::Rejected { program, detail, .. } => {
                text::append(&mut v, program.as_str());
                text::append(&mut v, " に断られた: ");
                text::append(&mut v, detail.as_str());
            },
        }
        text::string_of(v.as_slice())
    }
}

/// Every browser the settings offer works with every tool that takes
/// cookies: one setting serves every platform, so a browser one tool refused
/// would silently stop that platform.
pub proof fn lemma_every_browser_works_with_every_adapter(b: crate::config::Browser)
    ensures
        ytdlp::supports(b),
        gallerydl::supports(b),
{
}

/// A failure proves an item gone only when the source certainly lost it:
/// a tool that would not start, output that would not read, cookies that
/// would not work, a refusal or a passing failure says nothing of the
/// source, and leaves the item's presence unknown.
pub proof fn lemma_only_a_lost_item_is_gone(e: AdapterError)
    ensures
        e.presence_of() == Presence::Gone <==> e is Unavailable,
        !(e is Unavailable) ==> e.presence_of() == Presence::Unknown,
        (e is Launch || e is Parse || e is Unauthenticated || e is Rejected || e is Transient)
            ==> e.presence_of() == Presence::Unknown,
{
}

} // verus!
