//! What an item is: its type, the platform it lives on, and what it carries.

use vstd::prelude::*;

use crate::text;
use crate::url::NormalizedUrl;

verus! {

/// The item types. Each value names its platform, so no two platforms share one.
#[derive(Debug, Clone, Copy, PartialEq, Eq, Structural, Hash, PartialOrd, Ord)]
pub enum ContentType {
    YoutubeShorts,
    YoutubeVideo,
    YoutubeLive,
    XPost,
    XSpace,
    XBroadcast,
}

/// The platforms escrow watches.
#[derive(Debug, Clone, Copy, PartialEq, Eq, Structural, Hash, PartialOrd, Ord)]
pub enum Platform {
    Youtube,
    X,
}

/// The types whose content is media with a title: all but `x_post`.
#[derive(Debug, Clone, Copy, PartialEq, Eq, Structural, Hash, PartialOrd, Ord)]
pub enum MediaType {
    YoutubeShorts,
    YoutubeVideo,
    YoutubeLive,
    XSpace,
    XBroadcast,
}

/// Which of the two shapes of content a type has.
#[derive(Debug, Clone, Copy, PartialEq, Eq, Structural)]
pub enum ContentShape {
    /// A title and nothing else.
    Media,
    /// A body and its links.
    Post,
}

/// A value that names no type escrow knows.
#[derive(Debug, Clone, PartialEq, Eq)]
pub struct UnknownContentType(pub String);

/// What an item carries. The type follows from it, so it is not kept beside it.
#[derive(Debug, Clone, PartialEq, Eq)]
pub enum Content {
    /// An item with a title.
    Media { media_type: MediaType, title: String },
    /// An item with a body and its links. An empty body is a body.
    Post { body: String, in_reply_to: Option<NormalizedUrl>, quoted: Option<NormalizedUrl> },
}

impl ContentType {
    /// The value of the type in the ledger and in what escrow hands out.
    pub open spec fn name(self) -> Seq<char> {
        match self {
            ContentType::YoutubeShorts => "youtube_shorts"@,
            ContentType::YoutubeVideo => "youtube_video"@,
            ContentType::YoutubeLive => "youtube_live"@,
            ContentType::XPost => "x_post"@,
            ContentType::XSpace => "x_space"@,
            ContentType::XBroadcast => "x_broadcast"@,
        }
    }

    pub open spec fn platform_of(self) -> Platform {
        match self {
            ContentType::YoutubeShorts | ContentType::YoutubeVideo | ContentType::YoutubeLive => Platform::Youtube,
            _ => Platform::X,
        }
    }

    pub open spec fn media_type_of(self) -> Option<MediaType> {
        match self {
            ContentType::YoutubeShorts => Some(MediaType::YoutubeShorts),
            ContentType::YoutubeVideo => Some(MediaType::YoutubeVideo),
            ContentType::YoutubeLive => Some(MediaType::YoutubeLive),
            ContentType::XPost => None,
            ContentType::XSpace => Some(MediaType::XSpace),
            ContentType::XBroadcast => Some(MediaType::XBroadcast),
        }
    }

    pub open spec fn shape_of(self) -> ContentShape {
        match self {
            ContentType::XPost => ContentShape::Post,
            _ => ContentShape::Media,
        }
    }

    /// Every type, in the order of the type table.
    pub open spec fn all() -> Seq<ContentType> {
        seq![
            ContentType::YoutubeShorts,
            ContentType::YoutubeVideo,
            ContentType::YoutubeLive,
            ContentType::XPost,
            ContentType::XSpace,
            ContentType::XBroadcast,
        ]
    }

    /// Every type, in the order of the type table.
    pub fn every() -> (r: [ContentType; 6])
        ensures
            r@ == Self::all(),
    {
        let r = [
            ContentType::YoutubeShorts,
            ContentType::YoutubeVideo,
            ContentType::YoutubeLive,
            ContentType::XPost,
            ContentType::XSpace,
            ContentType::XBroadcast,
        ];
        assert(r@ =~= Self::all());
        r
    }

    /// The value of the type in the ledger and in what escrow hands out.
    pub fn as_str(self) -> (r: &'static str)
        ensures
            r@ == self.name(),
    {
        match self {
            ContentType::YoutubeShorts => "youtube_shorts",
            ContentType::YoutubeVideo => "youtube_video",
            ContentType::YoutubeLive => "youtube_live",
            ContentType::XPost => "x_post",
            ContentType::XSpace => "x_space",
            ContentType::XBroadcast => "x_broadcast",
        }
    }

    /// The platform the type belongs to.
    pub fn platform(self) -> (r: Platform)
        ensures
            r == self.platform_of(),
    {
        match self {
            ContentType::YoutubeShorts | ContentType::YoutubeVideo | ContentType::YoutubeLive => Platform::Youtube,
            ContentType::XPost | ContentType::XSpace | ContentType::XBroadcast => Platform::X,
        }
    }

    /// The media type when the content is media; nothing for `x_post`.
    pub fn media_type(self) -> (r: Option<MediaType>)
        ensures
            r == self.media_type_of(),
    {
        match self {
            ContentType::YoutubeShorts => Some(MediaType::YoutubeShorts),
            ContentType::YoutubeVideo => Some(MediaType::YoutubeVideo),
            ContentType::YoutubeLive => Some(MediaType::YoutubeLive),
            ContentType::XSpace => Some(MediaType::XSpace),
            ContentType::XBroadcast => Some(MediaType::XBroadcast),
            ContentType::XPost => None,
        }
    }

    /// Whether the content of this type is media or a post.
    pub fn shape(self) -> (r: ContentShape)
        ensures
            r == self.shape_of(),
    {
        match self {
            ContentType::YoutubeShorts | ContentType::YoutubeVideo | ContentType::YoutubeLive => ContentShape::Media,
            ContentType::XPost => ContentShape::Post,
            ContentType::XSpace | ContentType::XBroadcast => ContentShape::Media,
        }
    }

    /// Reads a value of the type table.
    pub fn parse(s: &str) -> (r: Result<ContentType, UnknownContentType>)
        ensures
            r matches Ok(t) ==> t.name() == s@,
            r is Err <==> (forall|t: ContentType| #[trigger] t.name() != s@),
            r matches Err(e) ==> e.0@ == s@,
    {
        let all = ContentType::every();
        let mut i: usize = 0;
        while i < 6
            invariant
                i <= 6,
                all@ == Self::all(),
                forall|j: int| 0 <= j < i ==> (#[trigger] all@[j]).name() != s@,
            decreases 6 - i,
        {
            if text::same(all[i].as_str(), s) {
                return Ok(all[i]);
            }
            i = i + 1;
        }
        proof {
            assert forall|t: ContentType| #[trigger] t.name() != s@ by {
                let j: int = match t {
                    ContentType::YoutubeShorts => 0,
                    ContentType::YoutubeVideo => 1,
                    ContentType::YoutubeLive => 2,
                    ContentType::XPost => 3,
                    ContentType::XSpace => 4,
                    ContentType::XBroadcast => 5,
                };
                assert(all@[j] == t);
            }
        }
        Err(UnknownContentType(s.to_owned()))
    }
}

impl core::str::FromStr for ContentType {
    type Err = UnknownContentType;

    fn from_str(s: &str) -> (r: Result<ContentType, UnknownContentType>)
        ensures
            r matches Ok(t) ==> t.name() == s@,
            r is Err <==> (forall|t: ContentType| #[trigger] t.name() != s@),
            r matches Err(e) ==> e.0@ == s@,
    {
        ContentType::parse(s)
    }
}

impl MediaType {
    pub open spec fn content_type_of(self) -> ContentType {
        match self {
            MediaType::YoutubeShorts => ContentType::YoutubeShorts,
            MediaType::YoutubeVideo => ContentType::YoutubeVideo,
            MediaType::YoutubeLive => ContentType::YoutubeLive,
            MediaType::XSpace => ContentType::XSpace,
            MediaType::XBroadcast => ContentType::XBroadcast,
        }
    }

    /// The type this media type is.
    pub fn content_type(self) -> (r: ContentType)
        ensures
            r == self.content_type_of(),
    {
        match self {
            MediaType::YoutubeShorts => ContentType::YoutubeShorts,
            MediaType::YoutubeVideo => ContentType::YoutubeVideo,
            MediaType::YoutubeLive => ContentType::YoutubeLive,
            MediaType::XSpace => ContentType::XSpace,
            MediaType::XBroadcast => ContentType::XBroadcast,
        }
    }
}

impl Content {
    pub open spec fn content_type_of(self) -> ContentType {
        match self {
            Content::Media { media_type, .. } => media_type.content_type_of(),
            Content::Post { .. } => ContentType::XPost,
        }
    }

    pub open spec fn shape_of(self) -> ContentShape {
        match self {
            Content::Media { .. } => ContentShape::Media,
            Content::Post { .. } => ContentShape::Post,
        }
    }

    pub open spec fn headline_of(self) -> Seq<char> {
        match self {
            Content::Media { title, .. } => title@,
            Content::Post { body, .. } => body@,
        }
    }

    /// The type, read off the content.
    pub fn content_type(&self) -> (r: ContentType)
        ensures
            r == self.content_type_of(),
    {
        match self {
            Content::Media { media_type, .. } => media_type.content_type(),
            Content::Post { .. } => ContentType::XPost,
        }
    }

    /// The heading shown in a listing: the title of media, the whole body of a post.
    pub fn headline(&self) -> (r: &str)
        ensures
            r@ == self.headline_of(),
    {
        match self {
            Content::Media { title, .. } => title.as_str(),
            Content::Post { body, .. } => body.as_str(),
        }
    }

    /// Whether the content is media or a post.
    pub fn shape(&self) -> (r: ContentShape)
        ensures
            r == self.shape_of(),
    {
        match self {
            Content::Media { .. } => ContentShape::Media,
            Content::Post { .. } => ContentShape::Post,
        }
    }

    /// Whether the content has the shape that `content_type` calls for.
    pub fn matches(&self, content_type: ContentType) -> (r: bool)
        ensures
            r == (self.shape_of() == content_type.shape_of()),
    {
        let mine = self.shape();
        let theirs = content_type.shape();
        match (mine, theirs) {
            (ContentShape::Media, ContentShape::Media) => true,
            (ContentShape::Post, ContentShape::Post) => true,
            _ => false,
        }
    }
}

/// The type read off content always has the content's own shape, and the
/// media type of a media item's type is the one it carries.
pub proof fn lemma_content_carries_its_type(content: Content)
    ensures
        content.content_type_of().shape_of() == content.shape_of(),
        content matches Content::Media { media_type, .. } ==> content.content_type_of().media_type_of()
            == Some(media_type),
        content is Post ==> content.content_type_of().media_type_of() is None,
{
}

/// The media type and the type correspond one to one; every type but
/// `x_post` has a media type, and a type's platform is named in its value.
pub proof fn lemma_type_table(t: ContentType, m: MediaType)
    ensures
        m.content_type_of().media_type_of() == Some(m),
        t.media_type_of() matches Some(mt) ==> mt.content_type_of() == t,
        t.media_type_of() is None <==> t == ContentType::XPost,
        t.shape_of() == ContentShape::Post <==> t.media_type_of() is None,
{
}

/// No two types share a value.
pub proof fn lemma_names_are_distinct(a: ContentType, b: ContentType)
    ensures
        a.name() == b.name() ==> a == b,
{
    reveal_strlit("youtube_shorts");
    reveal_strlit("youtube_video");
    reveal_strlit("youtube_live");
    reveal_strlit("x_post");
    reveal_strlit("x_space");
    reveal_strlit("x_broadcast");
    if a != b {
        assert(a.name() != b.name()) by {
            if a.name() == b.name() {
                assert(a.name().len() == b.name().len());
                assert(a.name()[1] == b.name()[1]);
                assert(a.name()[2] == b.name()[2]);
                assert(a.name()[8] == b.name()[8]);
                assert(a.name()[9] == b.name()[9]);
            }
        }
    }
}

/// Reading a type's value gives back the type.
pub proof fn lemma_parse_round_trip(t: ContentType, u: ContentType)
    ensures
        u.name() == t.name() ==> u == t,
{
    lemma_names_are_distinct(u, t);
}

/// A type belongs to exactly one platform, and its name says which: the
/// YouTube types are the ones whose names start with `youtube`.
pub proof fn lemma_platform_by_name(t: ContentType)
    ensures
        (t.platform_of() == Platform::Youtube) <==> crate::text::opens_with(t.name(), "youtube"@),
        (t.platform_of() == Platform::X) <==> !crate::text::opens_with(t.name(), "youtube"@),
{
    reveal_strlit("youtube");
    reveal_strlit("youtube_shorts");
    reveal_strlit("youtube_video");
    reveal_strlit("youtube_live");
    reveal_strlit("x_post");
    reveal_strlit("x_space");
    reveal_strlit("x_broadcast");
    if t.platform_of() == Platform::Youtube {
        assert(t.name().take(7) =~= "youtube"@);
    } else {
        assert(t.name()[0] != "youtube"@[0]);
    }
}

} // verus!
