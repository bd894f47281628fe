//! yt-dlp: YouTube's follow-up metadata and media, and the media of X spaces
//! and broadcasts; the liveness check of everything it fetched.
//!
//! Every argument list starts by ignoring the user's own yt-dlp settings, so
//! that a local configuration cannot change what the output looks like.

use vstd::prelude::*;

use super::invocation::{tail_of, Completed, Invocation};
use super::{AdapterError, Found};
use crate::asset::{Asset, AssetKind};
use crate::config::Browser;
use crate::content::{Content, ContentType, MediaType};
use crate::decimal;
use crate::liveness::Presence;
use crate::state::MediaPresence;
use crate::text::{self, occurs_in, trimmed};
use crate::timestamp::{Timestamp, EARLIEST, LATEST};
use crate::url::{self, fault_message, item_outcome, NormalizedUrl, UrlFault};

verus! {

/// The program's name in messages.
pub open spec fn program_name() -> Seq<char> {
    "yt-dlp"@
}

/// yt-dlp, with the browser its cookies come from.
#[derive(Debug, Clone, PartialEq, Eq)]
pub struct YtDlp {
    pub program: String,
    pub browser: Browser,
}

/// A channel tab; the tab decides the type of what it lists.
#[derive(Debug, Clone, Copy, PartialEq, Eq, Structural)]
pub enum Tab {
    Videos,
    Streams,
    Shorts,
}

/// What yt-dlp's JSON says of one item, as far as escrow reads it.
#[derive(Debug, Clone, PartialEq, Eq)]
pub struct VideoMetadata {
    pub webpage_url: String,
    pub title: String,
    /// Published at, in Unix seconds.
    pub timestamp: Option<i64>,
    /// When a stream is scheduled; a scheduled slot may have only this.
    pub release_timestamp: Option<i64>,
    pub live_status: Option<String>,
}

/// The type of a stream and, for a slot still to come, when it starts.
#[derive(Debug, Clone, Copy, PartialEq, Eq)]
pub struct Schedule {
    pub media_type: MediaType,
    pub scheduled_start_at: Option<Timestamp>,
}

/// The browsers yt-dlp takes cookies from, among those escrow offers.
pub open spec fn supports(b: Browser) -> bool {
    match b {
        Browser::Brave | Browser::Chrome | Browser::Chromium | Browser::Edge | Browser::Firefox
        | Browser::Opera | Browser::Safari | Browser::Vivaldi => true,
    }
}

/// The browsers yt-dlp takes cookies from, among those escrow offers.
pub fn supported_browsers() -> (r: Vec<Browser>)
    ensures
        forall|b: Browser| supports(b) <==> r@.contains(b),
{
    let r = vec![
        Browser::Brave,
        Browser::Chrome,
        Browser::Chromium,
        Browser::Edge,
        Browser::Firefox,
        Browser::Opera,
        Browser::Safari,
        Browser::Vivaldi,
    ];
    assert forall|b: Browser| supports(b) <==> r@.contains(b) by {
        match b {
            Browser::Brave => assert(r@[0] == b),
            Browser::Chrome => assert(r@[1] == b),
            Browser::Chromium => assert(r@[2] == b),
            Browser::Edge => assert(r@[3] == b),
            Browser::Firefox => assert(r@[4] == b),
            Browser::Opera => assert(r@[5] == b),
            Browser::Safari => assert(r@[6] == b),
            Browser::Vivaldi => assert(r@[7] == b),
        }
    }
    r
}

impl YtDlp {
    pub fn new(program: String, browser: Browser) -> (r: YtDlp)
        ensures
            r.program@ == program@,
            r.browser == browser,
    {
        YtDlp { program, browser }
    }
}

impl Tab {
    pub fn every() -> (r: [Tab; 3])
        ensures
            r@ == seq![Tab::Videos, Tab::Streams, Tab::Shorts],
    {
        [Tab::Videos, Tab::Streams, Tab::Shorts]
    }

    pub open spec fn path_of(self) -> Seq<char> {
        match self {
            Tab::Videos => "videos"@,
            Tab::Streams => "streams"@,
            Tab::Shorts => "shorts"@,
        }
    }

    /// The tab's last path segment.
    pub fn path(self) -> (r: &'static str)
        ensures
            r@ == self.path_of(),
    {
        match self {
            Tab::Videos => "videos",
            Tab::Streams => "streams",
            Tab::Shorts => "shorts",
        }
    }

    pub open spec fn content_type_of(self) -> ContentType {
        match self {
            Tab::Videos => ContentType::YoutubeVideo,
            Tab::Streams => ContentType::YoutubeLive,
            Tab::Shorts => ContentType::YoutubeShorts,
        }
    }

    /// The type of everything the tab lists.
    pub fn content_type(self) -> (r: ContentType)
        ensures
            r == self.content_type_of(),
    {
        match self {
            Tab::Videos => ContentType::YoutubeVideo,
            Tab::Streams => ContentType::YoutubeLive,
            Tab::Shorts => ContentType::YoutubeShorts,
        }
    }

    /// The media type of everything the tab lists.
    pub fn media_type(self) -> (r: MediaType)
        ensures
            r.content_type_of() == self.content_type_of(),
    {
        match self {
            Tab::Videos => MediaType::YoutubeVideo,
            Tab::Streams => MediaType::YoutubeLive,
            Tab::Shorts => MediaType::YoutubeShorts,
        }
    }
}

/// The arguments every call starts with.
pub open spec fn base_args() -> Seq<Seq<char>> {
    seq!["--ignore-config"@, "--no-warnings"@]
}

/// The arguments that pass cookies from `browser`.
pub open spec fn cookie_args(browser: Browser) -> Seq<Seq<char>> {
    seq!["--cookies-from-browser"@, browser.name()]
}

fn base(program: &str) -> (r: Invocation)
    ensures
        r.program@ == program@,
        r.args_of() == base_args(),
{
    Invocation::new(program).arg("--ignore-config").arg("--no-warnings")
}

/// Lists what a channel tab holds, one JSON line each. Listing is
/// discovery, and discovery never sends cookies.
pub fn list_argv(program: &str, source_url: &NormalizedUrl, tab: Tab) -> (r: Invocation)
    ensures
        r.program@ == program@,
        r.args_of() == base_args() + seq![
            "--flat-playlist"@,
            "--dump-json"@,
            source_url.text() + "/"@ + tab.path_of(),
        ],
{
    let mut target: Vec<char> = Vec::new();
    text::append(&mut target, source_url.as_str());
    text::append(&mut target, "/");
    text::append(&mut target, tab.path());
    let target = text::string_of(target.as_slice());
    let r = base(program).arg("--flat-playlist").arg("--dump-json").arg(target.as_str());
    assert(r.args_of() =~= base_args() + seq![
        "--flat-playlist"@,
        "--dump-json"@,
        source_url.text() + "/"@ + tab.path_of(),
    ]);
    r
}

/// Takes one item's JSON to learn when a stream starts. Part of discovery:
/// no cookies.
pub fn schedule_argv(program: &str, url: &NormalizedUrl) -> (r: Invocation)
    ensures
        r.program@ == program@,
        r.args_of() == base_args() + seq!["--skip-download"@, "--dump-json"@, url.text()],
{
    let r = base(program).arg("--skip-download").arg("--dump-json").arg(url.as_str());
    assert(r.args_of() =~= base_args() + seq!["--skip-download"@, "--dump-json"@, url.text()]);
    r
}

/// Takes one item's JSON, with cookies.
pub fn describe_argv(program: &str, url: &NormalizedUrl, browser: Browser) -> (r: Invocation)
    ensures
        r.program@ == program@,
        r.args_of() == base_args() + cookie_args(browser) + seq![
            "--skip-download"@,
            "--dump-json"@,
            url.text(),
        ],
{
    let r = base(program).arg("--cookies-from-browser").arg(browser.as_str()).arg(
        "--skip-download",
    ).arg("--dump-json").arg(url.as_str());
    assert(r.args_of() =~= base_args() + cookie_args(browser) + seq![
        "--skip-download"@,
        "--dump-json"@,
        url.text(),
    ]);
    r
}

/// Asks whether the source still has the item, printing its availability.
pub fn probe_argv(program: &str, url: &NormalizedUrl, browser: Browser) -> (r: Invocation)
    ensures
        r.program@ == program@,
        r.args_of() == base_args() + cookie_args(browser) + seq![
            "--simulate"@,
            "--quiet"@,
            "--print"@,
            "%(availability)s"@,
            url.text(),
        ],
{
    let r = base(program).arg("--cookies-from-browser").arg(browser.as_str()).arg("--simulate").arg(
        "--quiet",
    ).args(&["--print", "%(availability)s"]).arg(url.as_str());
    proof {
        reveal_strlit("--print");
        reveal_strlit("%(availability)s");
    }
    assert(r.args_of() =~= base_args() + cookie_args(browser) + seq![
        "--simulate"@,
        "--quiet"@,
        "--print"@,
        "%(availability)s"@,
        url.text(),
    ]);
    r
}

/// Brings the media home into `into`, named `video.1.<ext>`; a stream is
/// recorded from its start, and a slot to come is not waited for.
pub fn download_argv(program: &str, url: &NormalizedUrl, into: &str, browser: Browser) -> (r:
    Invocation)
    ensures
        r.program@ == program@,
        r.args_of() == base_args() + cookie_args(browser) + seq![
            "--no-playlist"@,
            "--live-from-start"@,
            "--paths"@,
            into@,
            "--output"@,
            AssetKind::Video.name() + ".1.%(ext)s"@,
            url.text(),
        ],
{
    let mut output: Vec<char> = Vec::new();
    text::append(&mut output, AssetKind::Video.as_str());
    text::append(&mut output, ".1.%(ext)s");
    let output = text::string_of(output.as_slice());
    let r = base(program).arg("--cookies-from-browser").arg(browser.as_str()).arg("--no-playlist").arg(
        "--live-from-start",
    ).arg("--paths").arg(into).arg("--output").arg(output.as_str()).arg(url.as_str());
    assert(r.args_of() =~= base_args() + cookie_args(browser) + seq![
        "--no-playlist"@,
        "--live-from-start"@,
        "--paths"@,
        into@,
        "--output"@,
        AssetKind::Video.name() + ".1.%(ext)s"@,
        url.text(),
    ]);
    r
}

/// Whether the error text says the item is gone for good.
pub open spec fn says_gone_spec(stderr: Seq<char>) -> bool {
    ||| occurs_in(stderr, "Video unavailable"@)
    ||| occurs_in(stderr, "This video is unavailable"@)
    ||| occurs_in(stderr, "This video has been removed"@)
    ||| occurs_in(stderr, "does not exist"@)
}

/// Whether the error text says the cookies could not be used.
pub open spec fn says_unauthenticated_spec(stderr: Seq<char>) -> bool {
    ||| occurs_in(stderr, "Sign in to confirm"@)
    ||| occurs_in(stderr, "cookies are no longer valid"@)
    ||| occurs_in(stderr, "This video is private"@)
    ||| occurs_in(stderr, "could not find"@)
    ||| occurs_in(stderr, "cookies database"@)
}

/// Whether the error text says the item is gone for good. Missing a wording
/// only delays: the item stays held and is checked again.
pub fn says_gone(stderr: &str) -> (r: bool)
    ensures
        r == says_gone_spec(stderr@),
{
    text::contains(stderr, "Video unavailable") || text::contains(stderr, "This video is unavailable")
        || text::contains(stderr, "This video has been removed") || text::contains(
        stderr,
        "does not exist",
    )
}

/// Whether the error text says the cookies could not be used: expired, or
/// the browser's cookie store is not there.
pub fn says_unauthenticated(stderr: &str) -> (r: bool)
    ensures
        r == says_unauthenticated_spec(stderr@),
{
    text::contains(stderr, "Sign in to confirm") || text::contains(
        stderr,
        "cookies are no longer valid",
    ) || text::contains(stderr, "This video is private") || text::contains(
        stderr,
        "could not find",
    ) || text::contains(stderr, "cookies database")
}

/// What a liveness check's output says: present only when the call
/// succeeded and printed something, gone only when the error says so,
/// unknown otherwise.
pub open spec fn presence_of(c: Completed) -> Presence {
    if c.success && trimmed(c.stdout@).len() > 0 {
        Presence::Present
    } else if says_gone_spec(c.stderr@) {
        Presence::Gone
    } else {
        Presence::Unknown
    }
}

/// Reads a liveness check. Silence is never taken for presence.
pub fn parse_probe(completed: &Completed) -> (r: Presence)
    ensures
        r == presence_of(*completed),
{
    if completed.success && text::trim(completed.stdout.as_str()).len() > 0 {
        return Presence::Present;
    }
    if says_gone(completed.stderr.as_str()) {
        return Presence::Gone;
    }
    Presence::Unknown
}

/// How a failed call on `url` is sorted: cookies that cannot be used, an
/// item the source has lost, or a passing failure; the first two by the
/// markers in the error output, in that order.
pub open spec fn classified(c: Completed, url: Seq<char>, r: AdapterError) -> bool {
    &&& says_unauthenticated_spec(c.stderr@) ==> (r matches AdapterError::Unauthenticated {
        detail,
    } && detail@ == tail_of(c.stderr@))
    &&& !says_unauthenticated_spec(c.stderr@) && says_gone_spec(c.stderr@) ==> (r
        matches AdapterError::Unavailable { url: u } && u@ == url)
    &&& !says_unauthenticated_spec(c.stderr@) && !says_gone_spec(c.stderr@) ==> (r
        matches AdapterError::Transient { program, detail } && program@ == program_name()
        && detail@ == tail_of(c.stderr@))
}

/// Sorts a failed call by how it broke.
pub fn classify(completed: &Completed, url: &NormalizedUrl) -> (r: AdapterError)
    ensures
        classified(*completed, url.text(), r),
{
    if says_unauthenticated(completed.stderr.as_str()) {
        AdapterError::Unauthenticated { detail: completed.stderr_tail() }
    } else if says_gone(completed.stderr.as_str()) {
        AdapterError::Unavailable { url: url.as_str().to_owned() }
    } else {
        AdapterError::Transient { program: "yt-dlp".to_owned(), detail: completed.stderr_tail() }
    }
}

/// What a download leaves: a run that failed is sorted by how it broke; a
/// run that succeeded but placed no file is a reading failure; otherwise the
/// files found in the item's directory, as found.
pub fn after_download(completed: &Completed, url: &NormalizedUrl, placed: Vec<Asset>) -> (r: Result<
    Vec<Asset>,
    AdapterError,
>)
    ensures
        !completed.success ==> (r matches Err(e) && classified(*completed, url.text(), e)),
        completed.success && placed@.len() == 0 ==> (r matches Err(AdapterError::Parse {
            program,
            detail,
        }) && program@ == program_name() && detail@ == "成功したが実体が置かれていない"@),
        completed.success && placed@.len() > 0 ==> r == Ok::<Vec<Asset>, AdapterError>(placed),
{
    if !completed.success {
        return Err(classify(completed, url));
    }
    if placed.len() == 0 {
        return Err(parse_error("成功したが実体が置かれていない".to_owned()));
    }
    Ok(placed)
}

/// A reading failure of yt-dlp's output.
fn parse_error(detail: String) -> (r: AdapterError)
    ensures
        r matches AdapterError::Parse { program, detail: d } && program@ == program_name() && d@
            == detail@,
{
    AdapterError::Parse { program: "yt-dlp".to_owned(), detail }
}

/// Whether Unix seconds name an instant the library holds.
pub open spec fn in_range(seconds: i64) -> bool {
    EARLIEST <= seconds <= LATEST
}

/// The message for Unix seconds that are no date.
pub open spec fn bad_seconds_message(seconds: i64) -> Seq<char> {
    "日時として読めない unix 秒 "@ + decimal::signed_decimal(seconds as int)
}

/// Unix seconds as an instant in UTC.
fn epoch_seconds(seconds: i64) -> (r: Result<Timestamp, AdapterError>)
    ensures
        r is Ok <==> in_range(seconds),
        r matches Ok(t) ==> t.instant() == seconds && t.offset_secs() == 0,
        r matches Err(AdapterError::Parse { program, detail }) ==> program@ == program_name()
            && detail@ == bad_seconds_message(seconds),
        r is Err ==> r matches Err(AdapterError::Parse { .. }),
{
    match Timestamp::from_epoch(seconds) {
        Some(t) => Ok(t),
        None => {
            let mut v: Vec<char> = Vec::new();
            text::append(&mut v, "日時として読めない unix 秒 ");
            let n = decimal::signed_decimal_of(seconds);
            text::append_chars(&mut v, n.as_slice());
            Err(parse_error(text::string_of(v.as_slice())))
        },
    }
}

/// How a live status reads: the stream kinds are a stream, `not_live` and
/// no status at all are a video, and any other word is not understood.
pub open spec fn media_type_reading(live_status: Option<Seq<char>>) -> Option<MediaType> {
    match live_status {
        None => Some(MediaType::YoutubeVideo),
        Some(s) => if s == "is_upcoming"@ || s == "is_live"@ || s == "post_live"@ || s
            == "was_live"@ {
            Some(MediaType::YoutubeLive)
        } else if s == "not_live"@ {
            Some(MediaType::YoutubeVideo)
        } else {
            None
        },
    }
}

impl VideoMetadata {
    pub open spec fn status_of(self) -> Option<Seq<char>> {
        match self.live_status {
            Some(s) => Some(s@),
            None => None,
        }
    }

    /// Whether the item is a slot still to come.
    pub open spec fn upcoming(self) -> bool {
        self.status_of() == Some("is_upcoming"@)
    }

    /// Whether the item is a stream or a video; an unknown live status is a
    /// reading failure, since a new word may be a new kind.
    pub fn media_type(&self) -> (r: Result<MediaType, AdapterError>)
        ensures
            match media_type_reading(self.status_of()) {
                Some(m) => r == Ok::<MediaType, AdapterError>(m),
                None => r matches Err(AdapterError::Parse { program, detail }) && program@
                    == program_name() && detail@ == "知らない live_status `"@ + self.status_of()->0
                    + "`"@,
            },
    {
        match &self.live_status {
            None => Ok(MediaType::YoutubeVideo),
            Some(s) => {
                let s = s.as_str();
                if text::same(s, "is_upcoming") || text::same(s, "is_live") || text::same(
                    s,
                    "post_live",
                ) || text::same(s, "was_live") {
                    Ok(MediaType::YoutubeLive)
                } else if text::same(s, "not_live") {
                    Ok(MediaType::YoutubeVideo)
                } else {
                    let mut v: Vec<char> = Vec::new();
                    text::append(&mut v, "知らない live_status `");
                    text::append(&mut v, s);
                    text::append(&mut v, "`");
                    Err(parse_error(text::string_of(v.as_slice())))
                }
            },
        }
    }

    /// When a slot still to come starts: only for `is_upcoming`, and only
    /// when the release time is given.
    pub fn scheduled_start_at(&self) -> (r: Result<Option<Timestamp>, AdapterError>)
        ensures
            !self.upcoming() ==> r == Ok::<Option<Timestamp>, AdapterError>(None),
            self.upcoming() && self.release_timestamp is None ==> r == Ok::<
                Option<Timestamp>,
                AdapterError,
            >(None),
            self.release_timestamp matches Some(s) ==> (self.upcoming() ==> {
                &&& (r is Ok <==> in_range(s))
                &&& (r is Ok ==> (r matches Ok(Some(t)) && t.instant() == s && t.offset_secs() == 0))
                &&& (r matches Err(AdapterError::Parse { program, detail }) ==> program@
                    == program_name() && detail@ == bad_seconds_message(s))
                &&& (r is Err ==> r matches Err(AdapterError::Parse { .. }))
            }),
    {
        let upcoming = match &self.live_status {
            Some(s) => text::same(s.as_str(), "is_upcoming"),
            None => false,
        };
        if !upcoming {
            return Ok(None);
        }
        match self.release_timestamp {
            None => Ok(None),
            Some(s) => match epoch_seconds(s) {
                Ok(t) => Ok(Some(t)),
                Err(e) => Err(e),
            },
        }
    }

    /// The seconds an item counts as published at: its own timestamp, or
    /// the scheduled time of a slot that has none.
    pub open spec fn seconds_of(self) -> Option<i64> {
        match self.timestamp {
            Some(s) => Some(s),
            None => self.release_timestamp,
        }
    }
}

/// The Unix seconds a slot still to come starts at; none for anything else.
pub open spec fn start_of(meta: VideoMetadata) -> Option<i64> {
    if meta.upcoming() {
        meta.release_timestamp
    } else {
        None
    }
}

/// Whether an optional start is the instant `x` names, in UTC, or both are none.
pub open spec fn start_matches(start: Option<Timestamp>, x: Option<i64>) -> bool {
    match x {
        Some(x) => start matches Some(t) && t.instant() == x && t.offset_secs() == 0,
        None => start is None,
    }
}

/// The type and start time of a stream from its metadata.
pub fn schedule_of(meta: &VideoMetadata) -> (r: Result<Schedule, AdapterError>)
    ensures
        media_type_reading(meta.status_of()) is None ==> (r matches Err(AdapterError::Parse {
            program,
            detail,
        }) && program@ == program_name() && detail@ == "知らない live_status `"@
            + meta.status_of()->0 + "`"@),
        media_type_reading(meta.status_of()) matches Some(m) ==> match start_of(*meta) {
            Some(x) => if in_range(x) {
                r matches Ok(s) && s.media_type == m && start_matches(s.scheduled_start_at, Some(x))
            } else {
                r matches Err(AdapterError::Parse { program, detail }) && program@
                    == program_name() && detail@ == bad_seconds_message(x)
            },
            None => r matches Ok(s) && s.media_type == m && s.scheduled_start_at is None,
        },
{
    let media_type = match meta.media_type() {
        Ok(m) => m,
        Err(e) => return Err(e),
    };
    let scheduled_start_at = match meta.scheduled_start_at() {
        Ok(t) => t,
        Err(e) => return Err(e),
    };
    Ok(Schedule { media_type, scheduled_start_at })
}

/// The item described by its metadata, of the media type the caller knows.
pub fn found_of(meta: VideoMetadata, media_type: MediaType) -> (r: Result<Found, AdapterError>)
    ensures
        item_outcome(meta.webpage_url@) matches Err(f) ==> (r matches Err(
            AdapterError::Parse { program, detail },
        ) && program@ == program_name() && detail@ == fault_message(f)),
        item_outcome(meta.webpage_url@) is Ok && meta.seconds_of() is None ==> (r matches Err(
            AdapterError::Parse { program, detail },
        ) && program@ == program_name() && detail@ == "timestamp も release_timestamp も無い"@),
        meta.seconds_of() matches Some(s) ==> (item_outcome(meta.webpage_url@) is Ok && !in_range(s)
            ==> (r matches Err(AdapterError::Parse { program, detail }) && program@
            == program_name() && detail@ == bad_seconds_message(s))),
        meta.seconds_of() matches Some(s) ==> (item_outcome(meta.webpage_url@) is Ok && in_range(s)
            ==> match start_of(meta) {
            Some(x) => !in_range(x) ==> (r matches Err(AdapterError::Parse { program, detail })
                && program@ == program_name() && detail@ == bad_seconds_message(x)),
            None => true,
        }),
        r is Ok <==> (item_outcome(meta.webpage_url@) is Ok && (meta.seconds_of() matches Some(s)
            && in_range(s)) && (start_of(meta) matches Some(x) ==> in_range(x))),
        r matches Ok(f) ==> {
            &&& item_outcome(meta.webpage_url@) matches Ok((u, _)) && f.url.text() == u
            &&& meta.seconds_of() matches Some(s) && f.published_at.instant() == s
            &&& f.published_at.offset_secs() == 0
            &&& f.content == (Content::Media { media_type, title: meta.title })
            &&& f.media == MediaPresence::Present
            &&& start_matches(f.scheduled_start_at, start_of(meta))
        },
        r is Err ==> r matches Err(AdapterError::Parse { .. }),
{
    let url = match url::normalize_item(meta.webpage_url.as_str()) {
        Ok((u, _)) => u,
        Err(e) => return Err(parse_error(e.message())),
    };
    let seconds = match meta.timestamp {
        Some(s) => s,
        None => match meta.release_timestamp {
            Some(s) => s,
            None => return Err(parse_error("timestamp も release_timestamp も無い".to_owned())),
        },
    };
    let published_at = match epoch_seconds(seconds) {
        Ok(t) => t,
        Err(e) => return Err(e),
    };
    let scheduled_start_at = match meta.scheduled_start_at() {
        Ok(t) => t,
        Err(e) => return Err(e),
    };
    Ok(Found {
        url,
        published_at,
        scheduled_start_at,
        content: Content::Media { media_type, title: meta.title },
        media: MediaPresence::Present,
    })
}

/// yt-dlp's words for cookies that cannot be used sort a failed call as
/// unauthenticated, whatever else the error says: the platform is halted for
/// the round rather than every item using up its retries.
pub proof fn lemma_cookie_trouble_is_unauthenticated(c: Completed, url: Seq<char>, r: AdapterError)
    requires
        classified(c, url, r),
        occurs_in(c.stderr@, "Sign in to confirm"@) || occurs_in(c.stderr@, "cookies are no longer valid"@)
            || occurs_in(c.stderr@, "This video is private"@) || occurs_in(c.stderr@, "could not find"@)
            || occurs_in(c.stderr@, "cookies database"@),
    ensures
        r is Unauthenticated,
{
}

/// A failed call whose error names none of yt-dlp's cookie or lost-item
/// wordings is a passing failure of yt-dlp.
pub proof fn lemma_other_failures_pass(c: Completed, url: Seq<char>, r: AdapterError)
    requires
        classified(c, url, r),
        !occurs_in(c.stderr@, "Sign in to confirm"@),
        !occurs_in(c.stderr@, "cookies are no longer valid"@),
        !occurs_in(c.stderr@, "This video is private"@),
        !occurs_in(c.stderr@, "could not find"@),
        !occurs_in(c.stderr@, "cookies database"@),
        !occurs_in(c.stderr@, "Video unavailable"@),
        !occurs_in(c.stderr@, "This video is unavailable"@),
        !occurs_in(c.stderr@, "This video has been removed"@),
        !occurs_in(c.stderr@, "does not exist"@),
    ensures
        r is Transient,
{
}

/// A failed call whose error says the video is gone, and names no cookie
/// trouble, is sorted as the source having lost the item at that URL.
pub proof fn lemma_lost_videos_are_unavailable(c: Completed, url: Seq<char>, r: AdapterError)
    requires
        classified(c, url, r),
        !occurs_in(c.stderr@, "Sign in to confirm"@),
        !occurs_in(c.stderr@, "cookies are no longer valid"@),
        !occurs_in(c.stderr@, "This video is private"@),
        !occurs_in(c.stderr@, "could not find"@),
        !occurs_in(c.stderr@, "cookies database"@),
        occurs_in(c.stderr@, "Video unavailable"@) || occurs_in(c.stderr@, "This video is unavailable"@)
            || occurs_in(c.stderr@, "This video has been removed"@) || occurs_in(c.stderr@, "does not exist"@),
    ensures
        r matches AdapterError::Unavailable { url: u } && u@ == url,
{
}

} // verus!
