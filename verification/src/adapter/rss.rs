//! YouTube's per-channel feed: discovery without cookies, once per channel,
//! at a rate YouTube states.
//!
//! The feed does not say whether an entry is a stream, nor when it starts;
//! that takes one follow-up call per entry.

use vstd::prelude::*;

use super::AdapterError;
use crate::decimal::{self, u64_reading};
use crate::text::{self, occurs_in, opens_with, trimmed};
use crate::timestamp::{reads_as, rfc3339_reading, Timestamp};
use crate::url::{self, fault_message, item_outcome, NormalizedUrl, TypeHint};

verus! {

/// The program's name in messages.
pub open spec fn program_name() -> Seq<char> {
    "youtube-rss"@
}

/// The prefix of a canonical YouTube channel URL.
pub open spec fn channel_prefix() -> Seq<char> {
    "https://www.youtube.com/channel/"@
}

/// The feed of a YouTube channel, under its immutable identifier; none for
/// anything that is not a channel.
pub open spec fn feed_of(source: Seq<char>) -> Option<Seq<char>> {
    let id = source.skip(channel_prefix().len() as int);
    if opens_with(source, channel_prefix()) && id.len() > 0 && !id.contains('/') {
        Some("https://www.youtube.com/feeds/videos.xml?channel_id="@ + id)
    } else {
        None
    }
}

/// The feed URL of a YouTube channel.
pub fn feed_url(source: &NormalizedUrl) -> (r: Option<String>)
    ensures
        match r {
            Some(f) => feed_of(source.text()) == Some(f@),
            None => feed_of(source.text()) is None,
        },
{
    let s = text::chars_of(source.as_str());
    let prefix = text::chars_of("https://www.youtube.com/channel/");
    if !text::chars_open_with(s.as_slice(), prefix.as_slice()) || s.len() <= prefix.len() {
        proof {
            if opens_with(s@, prefix@) {
                assert(s@.skip(prefix@.len() as int).len() == 0);
            }
        }
        return None;
    }
    let id = text::slice_chars(s.as_slice(), prefix.len(), s.len());
    assert(id@ =~= s@.skip(prefix@.len() as int));
    let mut k: usize = 0;
    while k < id.len()
        invariant
            k <= id@.len(),
            id@ == source.text().skip(channel_prefix().len() as int),
            opens_with(source.text(), channel_prefix()),
            forall|j: int| 0 <= j < k ==> id@[j] != '/',
        decreases id@.len() - k,
    {
        if id[k] == '/' {
            assert(id@.contains('/')) by {
                assert(id@[k as int] == '/');
            }
            return None;
        }
        k = k + 1;
    }
    let mut v: Vec<char> = Vec::new();
    text::append(&mut v, "https://www.youtube.com/feeds/videos.xml?channel_id=");
    text::append_chars(&mut v, id.as_slice());
    Some(text::string_of(v.as_slice()))
}

/// The feed to read for a source, or why there is none: only a YouTube
/// channel has one.
pub fn feed_for(source: &NormalizedUrl) -> (r: Result<String, AdapterError>)
    ensures
        feed_of(source.text()) matches Some(f) ==> (r matches Ok(x) && x@ == f),
        feed_of(source.text()) is None ==> (r matches Err(AdapterError::Parse { program, detail })
            && program@ == program_name() && detail@ == "YouTube の配信元として読めない: "@
            + source.text()),
{
    match feed_url(source) {
        Some(f) => Ok(f),
        None => {
            let mut v: Vec<char> = Vec::new();
            text::append(&mut v, "YouTube の配信元として読めない: ");
            text::append(&mut v, source.as_str());
            Err(AdapterError::Parse {
                program: "youtube-rss".to_owned(),
                detail: text::string_of(v.as_slice()),
            })
        },
    }
}

/// What the feed's HTTP status says. A missing channel (404) is the only
/// certain loss; a refusal (429) is kept apart from passing failures and
/// carries the wait the server asked for; any other error status is a
/// passing failure, described by `detail`; a success says nothing.
pub fn feed_status(source: &NormalizedUrl, status: u16, detail: &str, retry_after_value: Option<
    &str,
>) -> (r: Option<AdapterError>)
    ensures
        status == 404 ==> (r matches Some(AdapterError::Unavailable { url }) && url@
            == source.text()),
        status == 429 ==> (r matches Some(AdapterError::Rejected { program, detail: d, retry_after_secs })
            && program@ == program_name() && d@ == detail@ && match retry_after_of(
            match retry_after_value {
                Some(v) => Some(v@),
                None => None,
            },
        ) {
            Some(n) => retry_after_secs == Some(n as u64),
            None => retry_after_secs is None,
        }),
        400 <= status && status != 404 && status != 429 ==> (r matches Some(
            AdapterError::Transient { program, detail: d },
        ) && program@ == program_name() && d@ == detail@),
        status < 400 ==> r is None,
{
    if status == 404 {
        Some(AdapterError::Unavailable { url: source.as_str().to_owned() })
    } else if status == 429 {
        Some(AdapterError::Rejected {
            program: "youtube-rss".to_owned(),
            detail: detail.to_owned(),
            retry_after_secs: retry_after(retry_after_value),
        })
    } else if status >= 400 {
        Some(AdapterError::Transient { program: "youtube-rss".to_owned(), detail: detail.to_owned() })
    } else {
        None
    }
}

/// The wait a `Retry-After` value asks for, read only in its form of whole
/// seconds; an HTTP date or anything else is none.
pub open spec fn retry_after_of(value: Option<Seq<char>>) -> Option<nat> {
    match value {
        Some(v) => u64_reading(trimmed(v)),
        None => None,
    }
}

/// The seconds a `Retry-After` header value asks to wait.
pub fn retry_after(value: Option<&str>) -> (r: Option<u64>)
    ensures
        match retry_after_of(match value {
            Some(v) => Some(v@),
            None => None,
        }) {
            Some(n) => r == Some(n as u64),
            None => r is None,
        },
{
    match value {
        Some(v) => {
            let t = text::trim(v);
            decimal::parse_u64(t.as_slice())
        },
        None => None,
    }
}

/// One feed entry, as the feed writes it.
#[derive(Debug, Clone, PartialEq, Eq)]
pub struct FeedEntry {
    pub title: String,
    /// The entry's link; a short links to `/shorts/`.
    pub href: String,
    pub published: String,
}

/// One item seen in a feed, before anything more is known of it.
#[derive(Debug, Clone, PartialEq, Eq)]
pub struct Sighting {
    pub url: NormalizedUrl,
    /// What the link says of the type; only shorts tell themselves apart.
    pub hint: TypeHint,
    pub title: String,
    pub published_at: Timestamp,
}

/// A reading failure of the feed.
fn parse_error(detail: String) -> (r: AdapterError)
    ensures
        r matches AdapterError::Parse { program, detail: d } && program@ == program_name() && d@
            == detail@,
{
    AdapterError::Parse { program: "youtube-rss".to_owned(), detail }
}

/// The message for a publication time that does not read.
pub open spec fn bad_time_message(text: Seq<char>) -> Seq<char> {
    "ISO 8601 の日時として読めない: "@ + text
}

/// The first thing that keeps an entry from becoming a sighting, if any.
pub open spec fn entry_fault(e: FeedEntry) -> Option<Seq<char>> {
    match item_outcome(e.href@) {
        Err(f) => Some(fault_message(f)),
        Ok(_) => if rfc3339_reading(e.published@) is None {
            Some(bad_time_message(e.published@))
        } else {
            None
        },
    }
}

/// Whether a sighting is what an entry says.
pub open spec fn sighting_matches(s: Sighting, e: FeedEntry) -> bool {
    &&& item_outcome(e.href@) == Ok::<(Seq<char>, TypeHint), url::UrlFault>((s.url.text(), s.hint))
    &&& s.title@ == e.title@
    &&& reads_as(e.published@, s.published_at)
}

/// The sightings a feed's entries describe, in the feed's order; the first
/// entry that does not read fails the whole feed.
pub fn sightings_of(entries: &Vec<FeedEntry>) -> (r: Result<Vec<Sighting>, AdapterError>)
    ensures
        match r {
            Ok(v) => v@.len() == entries@.len() && forall|i: int|
                0 <= i < v@.len() ==> sighting_matches(#[trigger] v@[i], entries@[i]),
            Err(e) => exists|i: int|
                {
                    &&& 0 <= i < entries@.len()
                    &&& forall|j: int| 0 <= j < i ==> #[trigger] entry_fault(entries@[j]) is None
                    &&& #[trigger] entry_fault(entries@[i]) matches Some(d)
                    &&& e matches AdapterError::Parse { program, detail }
                    &&& program@ == program_name()
                    &&& detail@ == d
                },
        },
        r is Ok <==> forall|i: int| 0 <= i < entries@.len() ==> #[trigger] entry_fault(entries@[i]) is None,
{
    let mut v: Vec<Sighting> = Vec::new();
    let mut i: usize = 0;
    while i < entries.len()
        invariant
            i <= entries@.len(),
            v@.len() == i,
            forall|j: int| 0 <= j < i ==> sighting_matches(#[trigger] v@[j], entries@[j]),
            forall|j: int| 0 <= j < i ==> #[trigger] entry_fault(entries@[j]) is None,
        decreases entries@.len() - i,
    {
        let e = &entries[i];
        let (url, hint) = match url::normalize_item(e.href.as_str()) {
            Ok(pair) => pair,
            Err(err) => {
                let d = err.message();
                assert(entry_fault(entries@[i as int]) is Some);
                return Err(parse_error(d));
            },
        };
        let published_at = match Timestamp::parse(e.published.as_str()) {
            Ok(t) => t,
            Err(_) => {
                let mut m: Vec<char> = Vec::new();
                text::append(&mut m, "ISO 8601 の日時として読めない: ");
                text::append(&mut m, e.published.as_str());
                assert(entry_fault(entries@[i as int]) is Some);
                return Err(parse_error(text::string_of(m.as_slice())));
            },
        };
        let ghost before = v@;
        v.push(Sighting { url, hint, title: e.title.clone(), published_at });
        assert(forall|j: int| 0 <= j < i ==> v@[j] == before[j]);
        i = i + 1;
    }
    Ok(v)
}

} // verus!
