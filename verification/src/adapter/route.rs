//! The table of which tool does what: platform and operation to tool.
//!
//! | | discovery | acquisition | liveness |
//! |---|---|---|---|
//! | YouTube shorts / videos / streams | feed and yt-dlp | yt-dlp | yt-dlp |
//! | X posts | gallery-dl | gallery-dl | none decided |
//! | X spaces | gallery-dl | yt-dlp | yt-dlp |
//! | X broadcasts | gallery-dl | yt-dlp | yt-dlp |
//!
//! The table stands here once, so that moving one operation to another tool
//! is one changed row. Callers never learn which tool ran.

use vstd::prelude::*;

use super::gallerydl::GalleryDl;
use super::rss::Sighting;
use super::ytdlp::YtDlp;
use super::{AdapterError, Found};
use crate::content::{Content, ContentType, MediaType, Platform};
use crate::state::MediaPresence;
use crate::text;
use crate::timestamp::Timestamp;
use crate::url::TypeHint;

verus! {

/// The tools the table hands work to.
#[derive(Debug, Clone, PartialEq, Eq)]
pub struct Adapters {
    pub ytdlp: YtDlp,
    pub gallerydl: GalleryDl,
}

/// Who brings an item's media home.
#[derive(Debug, Clone, Copy, PartialEq, Eq, Structural)]
pub enum Acquirer {
    YtDlp,
    GalleryDl,
}

/// Who reads a source for new items.
#[derive(Debug, Clone, Copy, PartialEq, Eq, Structural)]
pub enum Discoverer {
    /// The channel feed, with yt-dlp for what the feed does not say.
    Youtube,
    GalleryDl,
}

/// Who reads one item's metadata: yt-dlp for media, which it knows the
/// type of, gallery-dl for posts, whose text and links only it returns.
#[derive(Debug, Clone, Copy, PartialEq, Eq, Structural)]
pub enum Describer {
    YtDlp(MediaType),
    GalleryDl,
}

/// The acquisition column. Spaces and broadcasts are X's, but only yt-dlp
/// has extractors for them.
pub open spec fn acquirer_of(content_type: ContentType) -> Acquirer {
    match content_type {
        ContentType::XPost => Acquirer::GalleryDl,
        _ => Acquirer::YtDlp,
    }
}

/// The discovery column: YouTube through its feed; X through gallery-dl,
/// since yt-dlp cannot list a timeline.
pub open spec fn discoverer_of(platform: Platform) -> Discoverer {
    match platform {
        Platform::Youtube => Discoverer::Youtube,
        Platform::X => Discoverer::GalleryDl,
    }
}

/// The liveness column: no means of checking an X post has been decided,
/// and what cannot be checked stays held.
pub open spec fn probed(content_type: ContentType) -> bool {
    content_type != ContentType::XPost
}

impl Adapters {
    pub fn new(ytdlp: YtDlp, gallerydl: GalleryDl) -> (r: Adapters)
        ensures
            r.ytdlp == ytdlp,
            r.gallerydl == gallerydl,
    {
        Adapters { ytdlp, gallerydl }
    }

    /// Who acquires items of a type.
    pub fn acquirer(&self, content_type: ContentType) -> (r: Acquirer)
        ensures
            r == acquirer_of(content_type),
    {
        match content_type {
            ContentType::YoutubeShorts | ContentType::YoutubeVideo | ContentType::YoutubeLive => {
                Acquirer::YtDlp
            },
            ContentType::XPost => Acquirer::GalleryDl,
            ContentType::XSpace | ContentType::XBroadcast => Acquirer::YtDlp,
        }
    }

    /// Who reads the sources of a platform.
    pub fn discoverer(&self, platform: Platform) -> (r: Discoverer)
        ensures
            r == discoverer_of(platform),
    {
        match platform {
            Platform::Youtube => Discoverer::Youtube,
            Platform::X => Discoverer::GalleryDl,
        }
    }

    /// Whether anything can check that a source still has items of a type.
    pub fn has_prober(content_type: ContentType) -> (r: bool)
        ensures
            r == probed(content_type),
    {
        match content_type {
            ContentType::XPost => false,
            ContentType::YoutubeShorts | ContentType::YoutubeVideo | ContentType::YoutubeLive
            | ContentType::XSpace | ContentType::XBroadcast => true,
        }
    }

    /// Who reads one item's metadata.
    pub fn describer(&self, content_type: ContentType) -> (r: Describer)
        ensures
            match content_type.media_type_of() {
                Some(m) => r == Describer::YtDlp(m),
                None => r == Describer::GalleryDl,
            },
    {
        match content_type.media_type() {
            Some(m) => Describer::YtDlp(m),
            None => Describer::GalleryDl,
        }
    }
}

/// What to do with one entry of a YouTube feed during discovery.
#[derive(Debug, Clone, PartialEq, Eq)]
pub enum SightingStep {
    /// Older than what the source is watched from: passed over.
    Skip,
    /// Its link already tells the type: a short.
    Known(MediaType),
    /// A video or a stream, which only one follow-up call can tell apart.
    AskSchedule,
    /// A type a feed cannot carry.
    Refused(AdapterError),
}

/// What to do with a feed entry: entries from before `since` are passed
/// over; a type the link tells is taken as it is; any other entry needs
/// one follow-up call.
pub fn sighting_step(sighting: &Sighting, since: Timestamp) -> (r: SightingStep)
    ensures
        sighting.published_at.order_key() < since.order_key() ==> r == SightingStep::Skip,
        sighting.published_at.order_key() >= since.order_key() ==> match sighting.hint {
            TypeHint::YoutubeUnknown => r == SightingStep::AskSchedule,
            TypeHint::Known(t) => match t.media_type_of() {
                Some(m) => r == SightingStep::Known(m),
                None => r matches SightingStep::Refused(AdapterError::Parse { program, detail })
                    && program@ == "escrow"@ && detail@ == "YouTube に本文だけの種別は無い: "@ + t.name(),
            },
        },
{
    if sighting.published_at.is_before(&since) {
        return SightingStep::Skip;
    }
    match sighting.hint {
        TypeHint::YoutubeUnknown => SightingStep::AskSchedule,
        TypeHint::Known(t) => match t.media_type() {
            Some(m) => SightingStep::Known(m),
            None => {
                let mut v: Vec<char> = Vec::new();
                text::append(&mut v, "YouTube に本文だけの種別は無い: ");
                text::append(&mut v, t.as_str());
                SightingStep::Refused(
                    AdapterError::Parse {
                        program: "escrow".to_owned(),
                        detail: text::string_of(v.as_slice()),
                    },
                )
            },
        },
    }
}

/// The item a feed entry describes, once its type is known. Its
/// publication is when the entry was made, never the start of a scheduled
/// stream, which travels apart.
pub fn found_from_sighting(
    sighting: Sighting,
    media_type: MediaType,
    scheduled_start_at: Option<Timestamp>,
) -> (r: Found)
    ensures
        r.url == sighting.url,
        r.published_at == sighting.published_at,
        r.scheduled_start_at == scheduled_start_at,
        r.content == (Content::Media { media_type, title: sighting.title }),
        r.media == MediaPresence::Present,
{
    Found {
        url: sighting.url,
        published_at: sighting.published_at,
        scheduled_start_at,
        content: Content::Media { media_type, title: sighting.title },
        media: MediaPresence::Present,
    }
}

} // verus!
