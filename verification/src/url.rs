//! Canonical URLs of items and sources.
//!
//! Every entrance to the same item collapses to one text, built on the
//! platform's immutable identifier rather than a handle that can be renamed.
//! Reading the URL itself — scheme, host, path, query — is the `url` crate's
//! work; what is made of the pieces is this module's.

use vstd::prelude::*;

use crate::content::{ContentType, UnknownContentType};
use crate::text;

verus! {

/// A URL in the one form that stands for its item or source.
#[derive(Debug, Clone, PartialEq, Eq, Hash, PartialOrd, Ord)]
pub struct NormalizedUrl(String);

impl NormalizedUrl {
    pub closed spec fn text(self) -> Seq<char> {
        self.0@
    }

    /// The canonical text.
    pub fn as_str(&self) -> (r: &str)
        ensures
            r@ == self.text(),
    {
        self.0.as_str()
    }
}

/// What the entrance says about the type, read before the URL is collapsed.
#[derive(Debug, Clone, Copy, PartialEq, Eq, Structural)]
pub enum TypeHint {
    /// The path decides the type.
    Known(ContentType),
    /// `/watch?v=` and `youtu.be/` do not tell shorts, videos and streams apart.
    YoutubeUnknown,
}

/// Why a URL has no canonical form.
#[derive(Debug, Clone, PartialEq, Eq)]
pub enum UrlError {
    /// Not a URL at all.
    Malformed(String),
    /// A host escrow does not handle.
    UnknownHost(String),
    /// A URL of a known host that points at no item.
    NotAnItem { host: String, input: String },
    /// A source given by a handle rather than by its immutable identifier.
    UnresolvedSource { platform: &'static str, input: String },
}

/// What a [`UrlError`] says, as text.
pub enum UrlFault {
    Malformed(Seq<char>),
    UnknownHost(Seq<char>),
    NotAnItem(Seq<char>, Seq<char>),
    UnresolvedSource(Seq<char>, Seq<char>),
}

/// The message a fault is shown with.
pub open spec fn fault_message(f: UrlFault) -> Seq<char> {
    match f {
        UrlFault::Malformed(i) => "URL として読めない: "@ + i,
        UrlFault::UnknownHost(i) => "escrow が扱わないホスト: "@ + i,
        UrlFault::NotAnItem(host, input) => host + " の URL だが、項目を指していない: "@ + input,
        UrlFault::UnresolvedSource(platform, input) => platform
            + " の配信元 URL は不変 ID へ解決してから渡す: "@ + input,
    }
}

impl UrlError {
    /// The message shown to a person.
    pub open spec fn message_of(self) -> Seq<char> {
        fault_message(self.fault())
    }

    /// The message shown to a person.
    pub fn message(&self) -> (r: String)
        ensures
            r@ == self.message_of(),
    {
        let mut v: Vec<char> = Vec::new();
        match self {
            UrlError::Malformed(i) => {
                text::append(&mut v, "URL として読めない: ");
                text::append(&mut v, i.as_str());
            },
            UrlError::UnknownHost(i) => {
                text::append(&mut v, "escrow が扱わないホスト: ");
                text::append(&mut v, i.as_str());
            },
            UrlError::NotAnItem { host, input } => {
                text::append(&mut v, host.as_str());
                text::append(&mut v, " の URL だが、項目を指していない: ");
                text::append(&mut v, input.as_str());
            },
            UrlError::UnresolvedSource { platform, input } => {
                text::append(&mut v, platform);
                text::append(&mut v, " の配信元 URL は不変 ID へ解決してから渡す: ");
                text::append(&mut v, input.as_str());
            },
        }
        text::string_of(v.as_slice())
    }

    pub open spec fn fault(self) -> UrlFault {
        match self {
            UrlError::Malformed(i) => UrlFault::Malformed(i@),
            UrlError::UnknownHost(i) => UrlFault::UnknownHost(i@),
            UrlError::NotAnItem { host, input } => UrlFault::NotAnItem(host@, input@),
            UrlError::UnresolvedSource { platform, input } => UrlFault::UnresolvedSource(
                platform@,
                input@,
            ),
        }
    }
}

/// What the `url` crate reads from a URL: the host, the path segments (none
/// for a URL that cannot be a base) and the decoded query pairs in order.
pub type UrlReading = (Option<Seq<char>>, Option<Seq<Seq<char>>>, Seq<(Seq<char>, Seq<char>)>);

/// What `url::Url::parse` reads from a text, or nothing when it refuses it.
pub uninterp spec fn url_reading(input: Seq<char>) -> Option<UrlReading>;

/// The pieces of a parsed URL, as plain strings: the host, the path
/// segments (none for a URL that cannot be a base) and the decoded query pairs.
pub struct UrlParts {
    pub host: Option<String>,
    pub segments: Option<Vec<String>>,
    pub query: Vec<(String, String)>,
}

impl UrlParts {
    pub open spec fn reading(self) -> UrlReading {
        (
            match self.host {
                Some(h) => Some(h@),
                None => None,
            },
            match self.segments {
                Some(v) => Some(v@.map_values(|s: String| s@)),
                None => None,
            },
            self.query@.map_values(|q: (String, String)| (q.0@, q.1@)),
        )
    }
}

/// `url::Url::parse`, then `host_str`, `path_segments` and `query_pairs` of
/// the result, copied into plain strings.
///
/// Claims only that the pieces are a function of the text.
#[verifier::external_body]
fn read_url(input: &str) -> (r: Option<UrlParts>)
    ensures
        match r {
            Some(p) => url_reading(input@) == Some(p.reading()),
            None => url_reading(input@) is None,
        },
{
    match url::Url::parse(input) {
        Ok(u) => Some(UrlParts {
            host: u.host_str().map(|h| h.to_owned()),
            segments: u.path_segments().map(|s| s.map(|seg| seg.to_owned()).collect()),
            query: u.query_pairs().map(|(k, v)| (k.into_owned(), v.into_owned())).collect(),
        }),
        Err(_) => None,
    }
}

/// The hosts escrow handles.
#[derive(Clone, Copy, PartialEq, Eq, Structural)]
pub enum Host {
    Youtube,
    YoutubeShort,
    X,
}

pub open spec fn host_kind(h: Seq<char>) -> Option<Host> {
    if h == "youtube.com"@ || h == "www.youtube.com"@ || h == "m.youtube.com"@ || h
        == "music.youtube.com"@ {
        Some(Host::Youtube)
    } else if h == "youtu.be"@ {
        Some(Host::YoutubeShort)
    } else if h == "x.com"@ || h == "www.x.com"@ || h == "twitter.com"@ || h == "www.twitter.com"@
        || h == "mobile.twitter.com"@ || h == "mobile.x.com"@ {
        Some(Host::X)
    } else {
        None
    }
}

/// The non-empty path segments, in order.
pub open spec fn path_of(segs: Seq<Seq<char>>) -> Seq<Seq<char>>
    decreases segs.len(),
{
    if segs.len() == 0 {
        Seq::empty()
    } else if segs.last().len() > 0 {
        path_of(segs.drop_last()).push(segs.last())
    } else {
        path_of(segs.drop_last())
    }
}

pub open spec fn path_of_reading(segs: Option<Seq<Seq<char>>>) -> Seq<Seq<char>> {
    match segs {
        Some(s) => path_of(s),
        None => Seq::empty(),
    }
}

/// The value of the first query pair named `key`.
pub open spec fn query_value(q: Seq<(Seq<char>, Seq<char>)>, key: Seq<char>) -> Option<Seq<char>>
    decreases q.len(),
{
    if q.len() == 0 {
        None
    } else if q[0].0 == key {
        Some(q[0].1)
    } else {
        query_value(q.drop_first(), key)
    }
}

pub open spec fn all_base64url(s: Seq<char>) -> bool {
    forall|i: int| 0 <= i < s.len() ==> text::is_base64url(#[trigger] s[i])
}

/// A YouTube video identifier: eleven characters of base64url.
pub open spec fn is_video_id(s: Seq<char>) -> bool {
    s.len() == 11 && all_base64url(s)
}

/// A YouTube channel identifier: `UC` and twenty-two more of base64url.
pub open spec fn is_channel_id(s: Seq<char>) -> bool {
    s.len() == 24 && s[0] == 'U' && s[1] == 'C' && all_base64url(s)
}

/// An X user identifier: digits.
pub open spec fn is_numeric_id(s: Seq<char>) -> bool {
    s.len() > 0 && forall|i: int| 0 <= i < s.len() ==> text::is_digit(#[trigger] s[i])
}

/// An X post, space or broadcast identifier, read loosely.
pub open spec fn is_x_id(s: Seq<char>) -> bool {
    s.len() > 0 && all_base64url(s)
}

pub open spec fn watch_url(id: Seq<char>) -> Seq<char> {
    "https://www.youtube.com/watch?v="@ + id
}

pub open spec fn x_url(kind: Seq<char>, id: Seq<char>) -> Seq<char> {
    "https://x.com/i/"@ + kind + "/"@ + id
}

pub open spec fn channel_url(id: Seq<char>) -> Seq<char> {
    "https://www.youtube.com/channel/"@ + id
}

pub open spec fn user_url(id: Seq<char>) -> Seq<char> {
    "https://x.com/i/user/"@ + id
}

/// What a YouTube item URL comes to: the identifier and the hint.
pub open spec fn youtube_entrance(path: Seq<Seq<char>>, q: Seq<(Seq<char>, Seq<char>)>) -> Option<
    (Seq<char>, TypeHint),
> {
    if path.len() == 2 && path[0] == "shorts"@ {
        Some((path[1], TypeHint::Known(ContentType::YoutubeShorts)))
    } else if path.len() == 2 && path[0] == "live"@ {
        Some((path[1], TypeHint::Known(ContentType::YoutubeLive)))
    } else if path.len() == 1 && path[0] == "watch"@ {
        match query_value(q, "v"@) {
            Some(v) => Some((v, TypeHint::YoutubeUnknown)),
            None => None,
        }
    } else {
        None
    }
}

/// What an X item URL comes to: the kind of page and the identifier.
pub open spec fn x_entrance(path: Seq<Seq<char>>) -> Option<(Seq<char>, Seq<char>)> {
    if path.len() >= 3 && (path[1] == "status"@ || path[1] == "statuses"@) {
        Some(("status"@, path[2]))
    } else if path.len() >= 4 && path[0] == "i"@ && path[1] == "web"@ && (path[2] == "status"@
        || path[2] == "statuses"@) {
        Some(("status"@, path[3]))
    } else if path.len() >= 3 && path[0] == "i"@ && path[1] == "spaces"@ {
        Some(("spaces"@, path[2]))
    } else if path.len() >= 3 && path[0] == "i"@ && path[1] == "broadcasts"@ {
        Some(("broadcasts"@, path[2]))
    } else {
        None
    }
}

pub open spec fn x_type(kind: Seq<char>) -> ContentType {
    if kind == "status"@ {
        ContentType::XPost
    } else if kind == "spaces"@ {
        ContentType::XSpace
    } else {
        ContentType::XBroadcast
    }
}

/// The canonical form of an item URL, or why there is none.
pub open spec fn item_outcome(input: Seq<char>) -> Result<(Seq<char>, TypeHint), UrlFault> {
    match url_reading(text::trimmed(input)) {
        None => Err(UrlFault::Malformed(input)),
        Some(reading) => item_from_reading(reading, input),
    }
}

/// The canonical form of an item URL that reads as `reading`.
pub open spec fn item_from_reading(reading: UrlReading, input: Seq<char>) -> Result<
    (Seq<char>, TypeHint),
    UrlFault,
> {
    match reading {
        (host, segs, q) => {
            let path = path_of_reading(segs);
            match (match host {
                Some(h) => host_kind(h),
                None => None,
            }) {
                None => Err(UrlFault::UnknownHost(input)),
                Some(Host::Youtube) => match youtube_entrance(path, q) {
                    Some((id, hint)) => if is_video_id(id) {
                        Ok((watch_url(id), hint))
                    } else {
                        Err(UrlFault::NotAnItem("youtube.com"@, input))
                    },
                    None => Err(UrlFault::NotAnItem("youtube.com"@, input)),
                },
                Some(Host::YoutubeShort) => if path.len() == 1 && is_video_id(path[0]) {
                    Ok((watch_url(path[0]), TypeHint::YoutubeUnknown))
                } else {
                    Err(UrlFault::NotAnItem("youtu.be"@, input))
                },
                Some(Host::X) => match x_entrance(path) {
                    Some((kind, id)) => if is_x_id(id) {
                        Ok((x_url(kind, id), TypeHint::Known(x_type(kind))))
                    } else {
                        Err(UrlFault::NotAnItem("x.com"@, input))
                    },
                    None => Err(UrlFault::NotAnItem("x.com"@, input)),
                },
            }
        },
    }
}

/// What an X source URL comes to: the user identifier.
pub open spec fn x_user(path: Seq<Seq<char>>, q: Seq<(Seq<char>, Seq<char>)>) -> Option<Seq<char>> {
    if path.len() == 3 && path[0] == "i"@ && path[1] == "user"@ {
        Some(path[2])
    } else if path.len() == 2 && path[0] == "intent"@ && path[1] == "user"@ {
        query_value(q, "user_id"@)
    } else {
        None
    }
}

/// The canonical form of a source URL, or why there is none.
pub open spec fn source_outcome(input: Seq<char>) -> Result<Seq<char>, UrlFault> {
    match url_reading(text::trimmed(input)) {
        None => Err(UrlFault::Malformed(input)),
        Some(reading) => source_from_reading(reading, input),
    }
}

/// The canonical form of a source URL that reads as `reading`.
pub open spec fn source_from_reading(reading: UrlReading, input: Seq<char>) -> Result<
    Seq<char>,
    UrlFault,
> {
    match reading {
        (host, segs, q) => {
            let path = path_of_reading(segs);
            match (match host {
                Some(h) => host_kind(h),
                None => None,
            }) {
                None => Err(UrlFault::UnknownHost(input)),
                Some(Host::Youtube) => if path.len() == 2 && path[0] == "channel"@ && is_channel_id(
                    path[1],
                ) {
                    Ok(channel_url(path[1]))
                } else {
                    Err(UrlFault::UnresolvedSource("YouTube"@, input))
                },
                Some(Host::X) => match x_user(path, q) {
                    Some(id) => if is_numeric_id(id) {
                        Ok(user_url(id))
                    } else {
                        Err(UrlFault::UnresolvedSource("X"@, input))
                    },
                    None => Err(UrlFault::UnresolvedSource("X"@, input)),
                },
                Some(Host::YoutubeShort) => Err(UrlFault::NotAnItem("youtu.be"@, input)),
            }
        },
    }
}

/// The pieces of a parsed URL as runs of characters.
struct Parsed {
    host: Option<Vec<char>>,
    path: Vec<Vec<char>>,
    query: Vec<(Vec<char>, Vec<char>)>,
}

impl Parsed {
    spec fn path_view(self) -> Seq<Seq<char>> {
        self.path@.map_values(|s: Vec<char>| s@)
    }

    spec fn query_view(self) -> Seq<(Seq<char>, Seq<char>)> {
        self.query@.map_values(|q: (Vec<char>, Vec<char>)| (q.0@, q.1@))
    }
}

/// The pieces as runs of characters, with only the non-empty path segments.
fn parsed_of(parts: &UrlParts) -> (p: Parsed)
    ensures
        parts.reading() matches (host, segs, q) && (match p.host {
            Some(h) => host == Some(h@),
            None => host is None,
        }) && p.path_view() == path_of_reading(segs) && p.query_view() == q,
{
    let host = match &parts.host {
        Some(h) => Some(text::chars_of(h.as_str())),
        None => None,
    };
    let mut path: Vec<Vec<char>> = Vec::new();
    match &parts.segments {
        Some(segs) => {
            let ghost all = segs@.map_values(|s: String| s@);
            let mut i: usize = 0;
            while i < segs.len()
                invariant
                    i <= segs.len(),
                    all == segs@.map_values(|s: String| s@),
                    path@.map_values(|s: Vec<char>| s@) == path_of(all.take(i as int)),
                decreases segs.len() - i,
            {
                let seg = text::chars_of(segs[i].as_str());
                assert(all.take(i + 1).drop_last() =~= all.take(i as int));
                if seg.len() > 0 {
                    path.push(seg);
                }
                i = i + 1;
                assert(path@.map_values(|s: Vec<char>| s@) =~= path_of(all.take(i as int)));
            }
            assert(all.take(segs.len() as int) =~= all);
        },
        None => {
            assert(path@.map_values(|s: Vec<char>| s@) =~= Seq::<Seq<char>>::empty());
        },
    }
    let mut query: Vec<(Vec<char>, Vec<char>)> = Vec::new();
    let ghost want = parts.query@.map_values(|q: (String, String)| (q.0@, q.1@));
    let mut j: usize = 0;
    while j < parts.query.len()
        invariant
            j <= parts.query.len(),
            want == parts.query@.map_values(|q: (String, String)| (q.0@, q.1@)),
            query@.map_values(|q: (Vec<char>, Vec<char>)| (q.0@, q.1@)) == want.take(j as int),
        decreases parts.query.len() - j,
    {
        let k = text::chars_of(parts.query[j].0.as_str());
        let v = text::chars_of(parts.query[j].1.as_str());
        assert(want[j as int] == (k@, v@));
        let ghost before = query@;
        query.push((k, v));
        assert(query@ == before.push((k, v)));
        assert(want.take(j + 1) =~= want.take(j as int).push(want[j as int]));
        j = j + 1;
        assert(query@.map_values(|q: (Vec<char>, Vec<char>)| (q.0@, q.1@)) =~= want.take(j as int));
    }
    assert(want.take(parts.query.len() as int) =~= want);
    Parsed { host, path, query }
}

fn host_of(h: &[char]) -> (r: Option<Host>)
    ensures
        r == host_kind(h@),
{
    if text::spells(h, "youtube.com") || text::spells(h, "www.youtube.com") || text::spells(
        h,
        "m.youtube.com",
    ) || text::spells(h, "music.youtube.com") {
        Some(Host::Youtube)
    } else if text::spells(h, "youtu.be") {
        Some(Host::YoutubeShort)
    } else if text::spells(h, "x.com") || text::spells(h, "www.x.com") || text::spells(
        h,
        "twitter.com",
    ) || text::spells(h, "www.twitter.com") || text::spells(h, "mobile.twitter.com")
        || text::spells(h, "mobile.x.com") {
        Some(Host::X)
    } else {
        None
    }
}

fn find_query(q: &Vec<(Vec<char>, Vec<char>)>, key: &str) -> (r: Option<Vec<char>>)
    ensures
        match r {
            Some(v) => query_value(q@.map_values(|p: (Vec<char>, Vec<char>)| (p.0@, p.1@)), key@)
                == Some(v@),
            None => query_value(q@.map_values(|p: (Vec<char>, Vec<char>)| (p.0@, p.1@)), key@)
                is None,
        },
{
    let ghost all = q@.map_values(|p: (Vec<char>, Vec<char>)| (p.0@, p.1@));
    assert(all.skip(0) =~= all);
    let mut i: usize = 0;
    while i < q.len()
        invariant
            i <= q.len(),
            all == q@.map_values(|p: (Vec<char>, Vec<char>)| (p.0@, p.1@)),
            query_value(all, key@) == query_value(all.skip(i as int), key@),
        decreases q.len() - i,
    {
        assert(all.skip(i as int)[0] == all[i as int]);
        if text::spells(q[i].0.as_slice(), key) {
            return Some(q[i].1.clone());
        }
        assert(all.skip(i as int).drop_first() =~= all.skip(i + 1));
        i = i + 1;
    }
    None
}

fn video_id(s: &[char]) -> (r: bool)
    ensures
        r == is_video_id(s@),
{
    s.len() == 11 && text::all_base64url(s)
}

fn channel_id(s: &[char]) -> (r: bool)
    ensures
        r == is_channel_id(s@),
{
    s.len() == 24 && s[0] == 'U' && s[1] == 'C' && text::all_base64url(s)
}

fn numeric_id(s: &[char]) -> (r: bool)
    ensures
        r == is_numeric_id(s@),
{
    s.len() > 0 && text::all_digits(s)
}

fn x_id(s: &[char]) -> (r: bool)
    ensures
        r == is_x_id(s@),
{
    s.len() > 0 && text::all_base64url(s)
}

fn make(prefix: &str, parts: &[&[char]], between: &str) -> (r: NormalizedUrl)
    requires
        parts.len() <= 2,
    ensures
        parts.len() == 1 ==> r.text() == prefix@ + parts@[0]@,
        parts.len() == 2 ==> r.text() == prefix@ + parts@[0]@ + between@ + parts@[1]@,
{
    let mut v: Vec<char> = Vec::new();
    text::append(&mut v, prefix);
    if parts.len() >= 1 {
        text::append_chars(&mut v, parts[0]);
    }
    if parts.len() == 2 {
        text::append(&mut v, between);
        text::append_chars(&mut v, parts[1]);
    }
    NormalizedUrl(text::string_of(v.as_slice()))
}

fn not_an_item(host: &str, input: &str) -> (r: UrlError)
    ensures
        r.fault() == UrlFault::NotAnItem(host@, input@),
{
    UrlError::NotAnItem { host: host.to_owned(), input: input.to_owned() }
}

/// The canonical form of an item URL, with what its entrance says about the
/// type.
///
/// Every YouTube entrance to a video collapses to `/watch?v=<id>`; every X
/// post collapses to `/i/status/<id>`, its handle dropped.
pub fn normalize_item(input: &str) -> (r: Result<(NormalizedUrl, TypeHint), UrlError>)
    ensures
        match r {
            Ok((u, hint)) => item_outcome(input@) == Ok::<(Seq<char>, TypeHint), UrlFault>(
                (u.text(), hint),
            ),
            Err(e) => item_outcome(input@) == Err::<(Seq<char>, TypeHint), UrlFault>(e.fault()),
        },
{
    let trimmed = text::string_of(text::trim(input).as_slice());
    match read_url(trimmed.as_str()) {
        Some(parts) => item_from_parts(input, &parts),
        None => Err(UrlError::Malformed(input.to_owned())),
    }
}

/// The canonical form of the item URL `input`, from the pieces the `url`
/// crate read from it.
pub fn item_from_parts(input: &str, parts: &UrlParts) -> (r: Result<
    (NormalizedUrl, TypeHint),
    UrlError,
>)
    ensures
        match r {
            Ok((u, hint)) => item_from_reading(parts.reading(), input@) == Ok::<
                (Seq<char>, TypeHint),
                UrlFault,
            >((u.text(), hint)),
            Err(e) => item_from_reading(parts.reading(), input@) == Err::<
                (Seq<char>, TypeHint),
                UrlFault,
            >(e.fault()),
        },
{
    let parsed = parsed_of(parts);
    let host = match &parsed.host {
        Some(h) => host_of(h.as_slice()),
        None => None,
    };
    let ghost path = parsed.path_view();
    let n = parsed.path.len();
    match host {
        None => Err(UrlError::UnknownHost(input.to_owned())),
        Some(Host::Youtube) => {
            let (id, hint): (Vec<char>, TypeHint) = if n == 2 && text::spells(
                parsed.path[0].as_slice(),
                "shorts",
            ) {
                (parsed.path[1].clone(), TypeHint::Known(ContentType::YoutubeShorts))
            } else if n == 2 && text::spells(parsed.path[0].as_slice(), "live") {
                (parsed.path[1].clone(), TypeHint::Known(ContentType::YoutubeLive))
            } else if n == 1 && text::spells(parsed.path[0].as_slice(), "watch") {
                match find_query(&parsed.query, "v") {
                    Some(v) => (v, TypeHint::YoutubeUnknown),
                    None => return Err(not_an_item("youtube.com", input)),
                }
            } else {
                return Err(not_an_item("youtube.com", input));
            };
            if !video_id(id.as_slice()) {
                return Err(not_an_item("youtube.com", input));
            }
            Ok((make("https://www.youtube.com/watch?v=", &[id.as_slice()], ""), hint))
        },
        Some(Host::YoutubeShort) => {
            if n == 1 && video_id(parsed.path[0].as_slice()) {
                Ok(
                    (
                        make("https://www.youtube.com/watch?v=", &[parsed.path[0].as_slice()], ""),
                        TypeHint::YoutubeUnknown,
                    ),
                )
            } else {
                Err(not_an_item("youtu.be", input))
            }
        },
        Some(Host::X) => {
            let (kind, id): (&str, &Vec<char>) = if n >= 3 && (text::spells(
                parsed.path[1].as_slice(),
                "status",
            ) || text::spells(parsed.path[1].as_slice(), "statuses")) {
                ("status", &parsed.path[2])
            } else if n >= 4 && text::spells(parsed.path[0].as_slice(), "i") && text::spells(
                parsed.path[1].as_slice(),
                "web",
            ) && (text::spells(parsed.path[2].as_slice(), "status") || text::spells(
                parsed.path[2].as_slice(),
                "statuses",
            )) {
                ("status", &parsed.path[3])
            } else if n >= 3 && text::spells(parsed.path[0].as_slice(), "i") && text::spells(
                parsed.path[1].as_slice(),
                "spaces",
            ) {
                ("spaces", &parsed.path[2])
            } else if n >= 3 && text::spells(parsed.path[0].as_slice(), "i") && text::spells(
                parsed.path[1].as_slice(),
                "broadcasts",
            ) {
                ("broadcasts", &parsed.path[2])
            } else {
                return Err(not_an_item("x.com", input));
            };
            if !x_id(id.as_slice()) {
                return Err(not_an_item("x.com", input));
            }
            let content_type = if text::same(kind, "status") {
                ContentType::XPost
            } else if text::same(kind, "spaces") {
                ContentType::XSpace
            } else {
                ContentType::XBroadcast
            };
            let kind_chars = text::chars_of(kind);
            Ok(
                (
                    make("https://x.com/i/", &[kind_chars.as_slice(), id.as_slice()], "/"),
                    TypeHint::Known(content_type),
                ),
            )
        },
    }
}

/// The canonical form of a source URL: a YouTube channel by its channel
/// identifier, an X account by its numeric user identifier. Handles are
/// refused, since they can be renamed.
pub fn normalize_source(input: &str) -> (r: Result<NormalizedUrl, UrlError>)
    ensures
        match r {
            Ok(u) => source_outcome(input@) == Ok::<Seq<char>, UrlFault>(u.text()),
            Err(e) => source_outcome(input@) == Err::<Seq<char>, UrlFault>(e.fault()),
        },
{
    let trimmed = text::string_of(text::trim(input).as_slice());
    match read_url(trimmed.as_str()) {
        Some(parts) => source_from_parts(input, &parts),
        None => Err(UrlError::Malformed(input.to_owned())),
    }
}

/// The canonical form of the source URL `input`, from the pieces the `url`
/// crate read from it.
pub fn source_from_parts(input: &str, parts: &UrlParts) -> (r: Result<NormalizedUrl, UrlError>)
    ensures
        match r {
            Ok(u) => source_from_reading(parts.reading(), input@) == Ok::<Seq<char>, UrlFault>(
                u.text(),
            ),
            Err(e) => source_from_reading(parts.reading(), input@) == Err::<Seq<char>, UrlFault>(
                e.fault(),
            ),
        },
{
    let parsed = parsed_of(parts);
    let host = match &parsed.host {
        Some(h) => host_of(h.as_slice()),
        None => None,
    };
    let n = parsed.path.len();
    match host {
        None => Err(UrlError::UnknownHost(input.to_owned())),
        Some(Host::Youtube) => {
            if n == 2 && text::spells(parsed.path[0].as_slice(), "channel") && channel_id(
                parsed.path[1].as_slice(),
            ) {
                Ok(make("https://www.youtube.com/channel/", &[parsed.path[1].as_slice()], ""))
            } else {
                Err(UrlError::UnresolvedSource { platform: "YouTube", input: input.to_owned() })
            }
        },
        Some(Host::X) => {
            let id: Vec<char> = if n == 3 && text::spells(parsed.path[0].as_slice(), "i")
                && text::spells(parsed.path[1].as_slice(), "user") {
                parsed.path[2].clone()
            } else if n == 2 && text::spells(parsed.path[0].as_slice(), "intent") && text::spells(
                parsed.path[1].as_slice(),
                "user",
            ) {
                match find_query(&parsed.query, "user_id") {
                    Some(v) => v,
                    None => {
                        return Err(UrlError::UnresolvedSource { platform: "X", input: input.to_owned() });
                    },
                }
            } else {
                return Err(UrlError::UnresolvedSource { platform: "X", input: input.to_owned() });
            };
            if !numeric_id(id.as_slice()) {
                return Err(UrlError::UnresolvedSource { platform: "X", input: input.to_owned() });
            }
            Ok(make("https://x.com/i/user/", &[id.as_slice()], ""))
        },
        Some(Host::YoutubeShort) => Err(not_an_item("youtu.be", input)),
    }
}

/// The kinds of X page an item's canonical URL names.
pub open spec fn x_kind(kind: Seq<char>) -> bool {
    kind == "status"@ || kind == "spaces"@ || kind == "broadcasts"@
}

/// How a canonical watch URL reads: the host, one segment, one query pair.
pub open spec fn watch_reading(id: Seq<char>) -> UrlReading {
    (Some("www.youtube.com"@), Some(seq!["watch"@]), seq![("v"@, id)])
}

/// How a canonical X item URL reads: the host and three segments.
pub open spec fn x_item_reading(kind: Seq<char>, id: Seq<char>) -> UrlReading {
    (Some("x.com"@), Some(seq!["i"@, kind, id]), Seq::empty())
}

/// How a canonical channel URL reads.
pub open spec fn channel_reading(id: Seq<char>) -> UrlReading {
    (Some("www.youtube.com"@), Some(seq!["channel"@, id]), Seq::empty())
}

/// How a canonical X account URL reads.
pub open spec fn user_reading(id: Seq<char>) -> UrlReading {
    (Some("x.com"@), Some(seq!["i"@, "user"@, id]), Seq::empty())
}

/// Every canonical item URL is a watch URL of a video identifier or an X
/// page of one of the three kinds.
pub proof fn lemma_item_forms(reading: UrlReading, input: Seq<char>)
    ensures
        item_from_reading(reading, input) matches Ok((c, _)) ==> {
            ||| exists|id: Seq<char>| is_video_id(id) && c == #[trigger] watch_url(id)
            ||| exists|kind: Seq<char>, id: Seq<char>|
                x_kind(kind) && is_x_id(id) && c == #[trigger] x_url(kind, id)
        },
{
    reveal_strlit("status");
    reveal_strlit("statuses");
    reveal_strlit("spaces");
    reveal_strlit("broadcasts");
    reveal_strlit("web");
    reveal_strlit("i");
    if item_from_reading(reading, input) is Ok {
        let (host, segs, q) = reading;
        let path = path_of_reading(segs);
        match (match host {
            Some(h) => host_kind(h),
            None => None,
        }) {
            Some(Host::Youtube) => {
                let (id, _) = youtube_entrance(path, q)->Some_0;
                assert(is_video_id(id) && item_from_reading(reading, input)->Ok_0.0 == watch_url(id));
            },
            Some(Host::YoutubeShort) => {
                assert(item_from_reading(reading, input)->Ok_0.0 == watch_url(path[0]));
            },
            Some(Host::X) => {
                let (kind, id) = x_entrance(path)->Some_0;
                assert(x_kind(kind));
                assert(item_from_reading(reading, input)->Ok_0.0 == x_url(kind, id));
            },
            None => {},
        }
    }
}

/// A watch URL, read into its evident pieces, is its own canonical form;
/// it no longer tells what type it is.
pub proof fn lemma_watch_url_is_canonical(id: Seq<char>, input: Seq<char>)
    requires
        is_video_id(id),
    ensures
        item_from_reading(watch_reading(id), input) == Ok::<(Seq<char>, TypeHint), UrlFault>(
            (watch_url(id), TypeHint::YoutubeUnknown),
        ),
{
    reveal_strlit("www.youtube.com");
    reveal_strlit("youtube.com");
    reveal_strlit("watch");
    reveal_strlit("shorts");
    reveal_strlit("live");
    reveal_strlit("v");
    let segs = seq!["watch"@];
    assert(path_of(segs.drop_last()) =~= Seq::<Seq<char>>::empty());
    assert(path_of(segs) =~= segs);
    assert(host_kind("www.youtube.com"@) == Some(Host::Youtube));
    assert(query_value(seq![("v"@, id)], "v"@) == Some(id));
}

/// An X item URL, read into its evident pieces, is its own canonical form,
/// of the same type.
pub proof fn lemma_x_url_is_canonical(kind: Seq<char>, id: Seq<char>, input: Seq<char>)
    requires
        x_kind(kind),
        is_x_id(id),
    ensures
        item_from_reading(x_item_reading(kind, id), input) == Ok::<(Seq<char>, TypeHint), UrlFault>(
            (x_url(kind, id), TypeHint::Known(x_type(kind))),
        ),
{
    reveal_strlit("x.com");
    reveal_strlit("youtube.com");
    reveal_strlit("www.youtube.com");
    reveal_strlit("m.youtube.com");
    reveal_strlit("music.youtube.com");
    reveal_strlit("youtu.be");
    reveal_strlit("i");
    reveal_strlit("status");
    reveal_strlit("statuses");
    reveal_strlit("spaces");
    reveal_strlit("broadcasts");
    reveal_strlit("web");
    lemma_x_host();
    let segs = seq!["i"@, kind, id];
    lemma_path_of_i();
    assert(segs.drop_last().drop_last() =~= seq!["i"@]);
    assert(segs.drop_last() =~= seq!["i"@].push(kind));
    assert(path_of(segs.drop_last()) =~= seq!["i"@, kind]);
    assert(path_of(segs) =~= segs);
}

proof fn lemma_x_host()
    ensures
        host_kind("x.com"@) == Some(Host::X),
{
    reveal_strlit("x.com");
    reveal_strlit("youtube.com");
    reveal_strlit("www.youtube.com");
    reveal_strlit("m.youtube.com");
    reveal_strlit("music.youtube.com");
    reveal_strlit("youtu.be");
    assert("x.com"@.len() == 5);
    assert("youtube.com"@.len() == 11);
    assert("www.youtube.com"@.len() == 15);
    assert("m.youtube.com"@.len() == 13);
    assert("music.youtube.com"@.len() == 17);
    assert("youtu.be"@.len() == 8);
}

proof fn lemma_path_of_i()
    ensures
        path_of(seq!["i"@]) =~= seq!["i"@],
{
    reveal_strlit("i");
    let s = seq!["i"@];
    assert(s.drop_last() =~= Seq::<Seq<char>>::empty());
    assert(s.last() == "i"@);
    assert("i"@.len() == 1);
    assert(path_of(s.drop_last()) =~= Seq::<Seq<char>>::empty());
    assert(path_of(s) =~= Seq::<Seq<char>>::empty().push("i"@));
}

/// A channel URL, read into its evident pieces, is its own canonical form.
pub proof fn lemma_channel_url_is_canonical(id: Seq<char>, input: Seq<char>)
    requires
        is_channel_id(id),
    ensures
        source_from_reading(channel_reading(id), input) == Ok::<Seq<char>, UrlFault>(
            channel_url(id),
        ),
{
    reveal_strlit("www.youtube.com");
    reveal_strlit("youtube.com");
    reveal_strlit("channel");
    let segs = seq!["channel"@, id];
    let first = seq!["channel"@];
    assert(first.drop_last() =~= Seq::<Seq<char>>::empty());
    assert("channel"@.len() == 7);
    assert(path_of(first.drop_last()) =~= Seq::<Seq<char>>::empty());
    assert(path_of(first) =~= Seq::<Seq<char>>::empty().push("channel"@));
    assert(segs.drop_last() =~= first);
    assert(path_of(segs) =~= segs);
    assert(host_kind("www.youtube.com"@) == Some(Host::Youtube));
}

/// An X account URL, read into its evident pieces, is its own canonical form.
pub proof fn lemma_user_url_is_canonical(id: Seq<char>, input: Seq<char>)
    requires
        is_numeric_id(id),
    ensures
        source_from_reading(user_reading(id), input) == Ok::<Seq<char>, UrlFault>(user_url(id)),
{
    reveal_strlit("x.com");
    reveal_strlit("youtube.com");
    reveal_strlit("www.youtube.com");
    reveal_strlit("m.youtube.com");
    reveal_strlit("music.youtube.com");
    reveal_strlit("youtu.be");
    reveal_strlit("i");
    reveal_strlit("user");
    lemma_x_host();
    lemma_path_of_i();
    let segs = seq!["i"@, "user"@, id];
    assert(segs.drop_last().drop_last() =~= seq!["i"@]);
    assert(segs.drop_last() =~= seq!["i"@].push("user"@));
    assert("user"@.len() == 4);
    assert(path_of(segs.drop_last()) =~= seq!["i"@, "user"@]);
    assert(path_of(segs) =~= segs);
}

/// Why no type could be settled for an item a person registers.
#[derive(Debug, Clone, PartialEq, Eq)]
pub enum TypeChoiceError {
    /// The type given by hand is not in the type table.
    Unknown(UnknownContentType),
    /// The entrance does not tell the type, and none was given.
    Undecidable,
}

/// The type of an item a person registers by URL. A type given by hand wins;
/// without one, the entrance's own type; an entrance that does not tell
/// (`/watch?v=`, `youtu.be/`) needs one given.
pub fn chosen_type(hint: TypeHint, given: Option<&str>) -> (r: Result<ContentType, TypeChoiceError>)
    ensures
        given matches Some(g) ==> {
            &&& r matches Ok(t) ==> t.name() == g@
            &&& r is Err <==> (forall|t: ContentType| #[trigger] t.name() != g@)
            &&& r matches Err(e) ==> (e matches TypeChoiceError::Unknown(u) && u.0@ == g@)
        },
        given is None ==> match hint {
            TypeHint::Known(t) => r == Ok::<ContentType, TypeChoiceError>(t),
            TypeHint::YoutubeUnknown => r == Err::<ContentType, TypeChoiceError>(TypeChoiceError::Undecidable),
        },
{
    match given {
        Some(g) => match ContentType::parse(g) {
            Ok(t) => Ok(t),
            Err(e) => Err(TypeChoiceError::Unknown(e)),
        },
        None => match hint {
            TypeHint::Known(t) => Ok(t),
            TypeHint::YoutubeUnknown => Err(TypeChoiceError::Undecidable),
        },
    }
}

/// The YouTube hosts a URL may name: the site itself, its `www`, mobile and
/// music addresses.
pub open spec fn youtube_alias(h: Seq<char>) -> bool {
    h == "youtube.com"@ || h == "www.youtube.com"@ || h == "m.youtube.com"@ || h
        == "music.youtube.com"@
}

/// Which YouTube address a URL names makes no difference: an item or a
/// source URL on any of them comes to what it comes to on `www.youtube.com`,
/// and a watch URL of a video on any of them comes to the canonical watch
/// URL of that video.
pub proof fn lemma_youtube_aliases_agree(
    h: Seq<char>,
    segs: Option<Seq<Seq<char>>>,
    q: Seq<(Seq<char>, Seq<char>)>,
    id: Seq<char>,
    input: Seq<char>,
)
    requires
        youtube_alias(h),
    ensures
        item_from_reading((Some(h), segs, q), input) == item_from_reading(
            (Some("www.youtube.com"@), segs, q),
            input,
        ),
        source_from_reading((Some(h), segs, q), input) == source_from_reading(
            (Some("www.youtube.com"@), segs, q),
            input,
        ),
        is_video_id(id) ==> item_from_reading((Some(h), Some(seq!["watch"@]), seq![("v"@, id)]), input)
            == Ok::<(Seq<char>, TypeHint), UrlFault>((watch_url(id), TypeHint::YoutubeUnknown)),
{
    reveal_strlit("youtube.com");
    reveal_strlit("www.youtube.com");
    reveal_strlit("m.youtube.com");
    reveal_strlit("music.youtube.com");
    assert(host_kind("www.youtube.com"@) == Some(Host::Youtube));
    assert(host_kind(h) == Some(Host::Youtube));
    if is_video_id(id) {
        lemma_watch_url_is_canonical(id, input);
    }
}

/// The X hosts a URL may name, old and new, with their `www` and mobile
/// addresses.
pub open spec fn x_alias(h: Seq<char>) -> bool {
    h == "x.com"@ || h == "www.x.com"@ || h == "twitter.com"@ || h == "www.twitter.com"@ || h
        == "mobile.twitter.com"@ || h == "mobile.x.com"@
}

/// Which X address a URL names makes no difference either: an item or a
/// source URL on any of them comes to what it comes to on `x.com`.
pub proof fn lemma_x_aliases_agree(
    h: Seq<char>,
    segs: Option<Seq<Seq<char>>>,
    q: Seq<(Seq<char>, Seq<char>)>,
    input: Seq<char>,
)
    requires
        x_alias(h),
    ensures
        item_from_reading((Some(h), segs, q), input) == item_from_reading(
            (Some("x.com"@), segs, q),
            input,
        ),
        source_from_reading((Some(h), segs, q), input) == source_from_reading(
            (Some("x.com"@), segs, q),
            input,
        ),
{
    reveal_strlit("youtube.com");
    reveal_strlit("www.youtube.com");
    reveal_strlit("m.youtube.com");
    reveal_strlit("music.youtube.com");
    reveal_strlit("youtu.be");
    reveal_strlit("x.com");
    reveal_strlit("www.x.com");
    reveal_strlit("twitter.com");
    reveal_strlit("www.twitter.com");
    reveal_strlit("mobile.twitter.com");
    reveal_strlit("mobile.x.com");
    assert("x.com"@.len() == 5 && "www.x.com"@.len() == 9 && "mobile.x.com"@.len() == 12
        && "mobile.twitter.com"@.len() == 18);
    assert("youtube.com"@.len() == 11 && "www.youtube.com"@.len() == 15 && "m.youtube.com"@.len()
        == 13 && "music.youtube.com"@.len() == 17 && "youtu.be"@.len() == 8);
    assert("twitter.com"@[0] != "youtube.com"@[0]);
    assert("www.twitter.com"@[4] != "www.youtube.com"@[4]);
    assert(host_kind("x.com"@) == Some(Host::X));
    assert(host_kind(h) == Some(Host::X));
}

/// A URL on any host other than YouTube's, `youtu.be` and X's is refused
/// as of an unknown host, item and source alike, as is one with no host.
pub proof fn lemma_other_hosts_are_unknown(
    host: Option<Seq<char>>,
    segs: Option<Seq<Seq<char>>>,
    q: Seq<(Seq<char>, Seq<char>)>,
    input: Seq<char>,
)
    requires
        host matches Some(h) ==> !youtube_alias(h) && h != "youtu.be"@ && !x_alias(h),
    ensures
        item_from_reading((host, segs, q), input) == Err::<(Seq<char>, TypeHint), UrlFault>(
            UrlFault::UnknownHost(input),
        ),
        source_from_reading((host, segs, q), input) == Err::<Seq<char>, UrlFault>(
            UrlFault::UnknownHost(input),
        ),
{
}

} // verus!
