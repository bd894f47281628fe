//! What escrow hands to the outside for an item it keeps: the row's values
//! and where its files are, media apart from transcripts.

use vstd::prelude::*;

use crate::asset::{item_dir_of, Asset, AssetKind};
use crate::content::Content;
use crate::item::Item;
use crate::paths::{self, joined};
use crate::state::{State, StateName};
use crate::timestamp::rfc3339_text;

verus! {

/// One item as handed over.
#[derive(Debug, Clone, PartialEq, Eq)]
pub struct Handover {
    pub id: i64,
    /// The title of media; none for a post.
    pub title: Option<String>,
    /// The body of a post; none for media.
    pub body: Option<String>,
    pub url: String,
    pub content_type: String,
    pub state: String,
    pub published_at: String,
    /// Video, audio and images, in listing order.
    pub media_paths: Vec<String>,
    /// Transcripts, in listing order.
    pub transcript_paths: Vec<String>,
}

/// An item that is not kept cannot be handed over.
#[derive(Debug, Clone, Copy, PartialEq, Eq)]
pub struct NotReleasable {
    pub state: StateName,
}

/// The views of a run of strings.
pub open spec fn texts(v: Seq<String>) -> Seq<Seq<char>> {
    Seq::new(v.len(), |i: int| v[i]@)
}

/// The paths of the transcripts among some assets, or of everything else,
/// in the assets' order.
pub open spec fn paths_of(dir: Seq<char>, assets: Seq<Asset>, transcripts: bool) -> Seq<Seq<char>>
    decreases assets.len(),
{
    if assets.len() == 0 {
        Seq::empty()
    } else {
        let rest = paths_of(dir, assets.drop_last(), transcripts);
        if (assets.last().kind_of() == AssetKind::Transcript) == transcripts {
            rest.push(joined(dir, assets.last().name()))
        } else {
            rest
        }
    }
}

fn collect_paths(dir: &str, assets: &Vec<Asset>, transcripts: bool) -> (r: Vec<String>)
    ensures
        texts(r@) == paths_of(dir@, assets@, transcripts),
{
    let mut r: Vec<String> = Vec::new();
    let mut i: usize = 0;
    while i < assets.len()
        invariant
            i <= assets@.len(),
            texts(r@) == paths_of(dir@, assets@.take(i as int), transcripts),
        decreases assets@.len() - i,
    {
        assert(assets@.take(i + 1).drop_last() =~= assets@.take(i as int));
        let a = &assets[i];
        let is_transcript = match a.kind() {
            AssetKind::Transcript => true,
            _ => false,
        };
        if is_transcript == transcripts {
            let ghost before = r@;
            let p = paths::join(dir, a.file_name().as_str());
            r.push(p);
            assert(texts(r@) =~= texts(before).push(p@));
        }
        i = i + 1;
    }
    assert(assets@.take(assets@.len() as int) =~= assets@);
    r
}

/// What an item is handed over as, with its files `assets` as found in its
/// directory under `media_dir`.
pub fn handover(item: &Item, media_dir: &str, assets: &Vec<Asset>) -> (r: Handover)
    ensures
        r.id == item.id.value(),
        match item.content {
            Content::Media { title, .. } => r.title matches Some(t) && t@ == title@ && r.body is None,
            Content::Post { body, .. } => r.body matches Some(b) && b@ == body@ && r.title is None,
        },
        r.url@ == item.url.text(),
        r.content_type@ == item.content.content_type_of().name(),
        r.state@ == item.state.name_of().name(),
        r.published_at@ == rfc3339_text(
            item.published_at.instant() as i64,
            item.published_at.offset_secs() as i32,
            item.published_at.nanos(),
        ),
        texts(r.media_paths@) == paths_of(item_dir_of(media_dir@, item.id), assets@, false),
        texts(r.transcript_paths@) == paths_of(item_dir_of(media_dir@, item.id), assets@, true),
{
    let dir = crate::asset::item_dir(media_dir, item.id);
    let (title, body) = match &item.content {
        Content::Media { title, .. } => (Some(title.clone()), None),
        Content::Post { body, .. } => (None, Some(body.clone())),
    };
    Handover {
        id: item.id.get(),
        title,
        body,
        url: item.url.as_str().to_owned(),
        content_type: item.content_type().as_str().to_owned(),
        state: item.state.as_str().to_owned(),
        published_at: item.published_at.to_text(),
        media_paths: collect_paths(dir.as_str(), assets, false),
        transcript_paths: collect_paths(dir.as_str(), assets, true),
    }
}

/// Whether an item in `state` may be handed over: only a kept one.
pub fn releasable(state: &State) -> (r: Result<(), NotReleasable>)
    ensures
        r is Ok <==> *state == State::Kept,
        r matches Err(e) ==> e.state == state.name_of(),
{
    match state {
        State::Kept => Ok(()),
        _ => Err(NotReleasable { state: state.name() }),
    }
}

} // verus!
