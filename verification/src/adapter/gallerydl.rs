//! gallery-dl: discovery on X, and the media of X posts.
//!
//! The timeline is asked for by the account's immutable identifier, never by
//! its handle, so a renamed account is still found.

use vstd::prelude::*;

use super::invocation::{tail_of, Completed, Invocation};
use super::{AdapterError, Found};
use crate::asset::{asset_view, asset_views, assets_sorted, sort_assets, Asset, AssetKind};
use crate::config::Browser;
use crate::order::{self, sorted, texts};
use crate::content::Content;
use crate::decimal;
use crate::state::MediaPresence;
use crate::text::{self, ascii_lowered, occurs_in, opens_with};
use crate::timestamp::{Timestamp, EARLIEST, LATEST, LEAP_NANOS};
use crate::url::{self, fault_message, item_outcome, NormalizedUrl};

verus! {

/// The program's name in messages.
pub open spec fn program_name() -> Seq<char> {
    "gallery-dl"@
}

/// The timeline to read for a source, or why there is none: only an X
/// account has one.
pub fn timeline_for(source: &NormalizedUrl) -> (r: Result<String, AdapterError>)
    ensures
        timeline_of(source.text()) matches Some(t) ==> (r matches Ok(x) && x@ == t),
        timeline_of(source.text()) is None ==> (r matches Err(AdapterError::Parse {
            program,
            detail,
        }) && program@ == program_name() && detail@ == "X の配信元として読めない: "@
            + source.text()),
{
    match timeline_url(source) {
        Some(t) => Ok(t),
        None => {
            let mut v: Vec<char> = Vec::new();
            text::append(&mut v, "X の配信元として読めない: ");
            text::append(&mut v, source.as_str());
            Err(parse_error(text::string_of(v.as_slice())))
        },
    }
}

/// The test that keeps what was published at or after `since`.
pub open spec fn published_from(since: Timestamp) -> spec_fn(Found) -> bool {
    |f: Found| since.order_key() <= f.published_at.order_key()
}

/// The posts of a timeline published at or after `since`, in their order.
/// Older ones were there before the source was watched.
pub fn published_since(found: Vec<Found>, since: Timestamp) -> (r: Vec<Found>)
    ensures
        r@ == found@.filter(published_from(since)),
{
    broadcast use vstd::seq_lib::group_filter_ensures;

    let mut kept: Vec<Found> = Vec::new();
    let mut rest = found;
    let ghost whole = rest@;
    let ghost mut seen: Seq<Found> = Seq::empty();
    assert(seen + rest@ =~= whole);
    while rest.len() > 0
        invariant
            seen + rest@ == whole,
            kept@ == seen.filter(published_from(since)),
        decreases rest@.len(),
    {
        let ghost before = rest@;
        let f = rest.remove(0);
        assert(rest@ =~= before.drop_first());
        proof {
            seen.lemma_filter_push(f, published_from(since));
        }
        let keep = since.is_at_or_before(&f.published_at);
        let ghost fv = f;
        if keep {
            kept.push(f);
        }
        proof {
            seen = seen.push(fv);
            assert(seen + rest@ =~= whole);
        }
    }
    assert(seen + rest@ =~= seen);
    kept
}

/// The one post a described URL gives: the first in the output. A source
/// that answers with none has lost it.
pub fn first_post(found: Vec<Found>, url: &NormalizedUrl) -> (r: Result<Found, AdapterError>)
    ensures
        found@.len() > 0 ==> r == Ok::<Found, AdapterError>(found@[0]),
        found@.len() == 0 ==> (r matches Err(AdapterError::Unavailable { url: u }) && u@
            == url.text()),
{
    if found.len() == 0 {
        return Err(AdapterError::Unavailable { url: url.as_str().to_owned() });
    }
    let mut found = found;
    Ok(found.remove(0))
}

/// gallery-dl, with the browser its cookies come from.
#[derive(Debug, Clone, PartialEq, Eq)]
pub struct GalleryDl {
    pub program: String,
    pub browser: Browser,
}

/// What gallery-dl's JSON says of one post, as far as escrow reads it. A
/// missing reply or quote is 0.
#[derive(Debug, Clone, PartialEq, Eq)]
pub struct TweetMetadata {
    pub tweet_id: i64,
    /// `YYYY-MM-DD HH:MM:SS`, in UTC.
    pub date: String,
    pub content: String,
    pub reply_id: i64,
    pub quoted_id: i64,
}

/// One element of gallery-dl's `--dump-json` output, by its leading kind.
#[derive(Debug, Clone, PartialEq, Eq)]
pub enum Entry {
    /// Kind -1: the extractor failed, with the error's name and message as
    /// written (empty when missing).
    Failed { error: String, message: String },
    /// Kind 2: a post's header.
    Post(TweetMetadata),
    /// Kind 2, but the header could not be read; the reason.
    BadPost(String),
    /// Kind 3: a file of the post before it.
    File,
    /// Any other kind.
    Unknown(i64),
    /// An element that is not an array.
    NotAnArray,
    /// An array that does not start with a kind.
    NoKind,
    /// A header with nothing after its kind.
    EmptyPost,
}

/// The browsers gallery-dl takes cookies from, among those escrow offers.
pub open spec fn supports(b: Browser) -> bool {
    match b {
        Browser::Brave | Browser::Chrome | Browser::Chromium | Browser::Edge | Browser::Firefox
        | Browser::Opera | Browser::Safari | Browser::Vivaldi => true,
    }
}

/// The browsers gallery-dl takes cookies from, among those escrow offers.
pub fn supported_browsers() -> (r: Vec<Browser>)
    ensures
        forall|b: Browser| supports(b) <==> r@.contains(b),
{
    let r = vec![
        Browser::Brave,
        Browser::Chrome,
        Browser::Chromium,
        Browser::Edge,
        Browser::Firefox,
        Browser::Opera,
        Browser::Safari,
        Browser::Vivaldi,
    ];
    assert forall|b: Browser| supports(b) <==> r@.contains(b) by {
        match b {
            Browser::Brave => assert(r@[0] == b),
            Browser::Chrome => assert(r@[1] == b),
            Browser::Chromium => assert(r@[2] == b),
            Browser::Edge => assert(r@[3] == b),
            Browser::Firefox => assert(r@[4] == b),
            Browser::Opera => assert(r@[5] == b),
            Browser::Safari => assert(r@[6] == b),
            Browser::Vivaldi => assert(r@[7] == b),
        }
    }
    r
}

impl GalleryDl {
    pub fn new(program: String, browser: Browser) -> (r: GalleryDl)
        ensures
            r.program@ == program@,
            r.browser == browser,
    {
        GalleryDl { program, browser }
    }
}

/// The prefix of a canonical X account URL.
pub open spec fn user_prefix() -> Seq<char> {
    "https://x.com/i/user/"@
}

/// The timeline of an X account, by its immutable identifier; none for
/// anything that is not an X account.
pub open spec fn timeline_of(source: Seq<char>) -> Option<Seq<char>> {
    if opens_with(source, user_prefix()) && source.len() > user_prefix().len() {
        Some("https://x.com/id:"@ + source.skip(user_prefix().len() as int) + "/timeline"@)
    } else {
        None
    }
}

/// The timeline URL of an X account.
pub fn timeline_url(source: &NormalizedUrl) -> (r: Option<String>)
    ensures
        match r {
            Some(t) => timeline_of(source.text()) == Some(t@),
            None => timeline_of(source.text()) is None,
        },
{
    let s = text::chars_of(source.as_str());
    let prefix = text::chars_of("https://x.com/i/user/");
    if !text::chars_open_with(s.as_slice(), prefix.as_slice()) || s.len() <= prefix.len() {
        return None;
    }
    let id = text::slice_chars(s.as_slice(), prefix.len(), s.len());
    let mut v: Vec<char> = Vec::new();
    text::append(&mut v, "https://x.com/id:");
    text::append_chars(&mut v, id.as_slice());
    text::append(&mut v, "/timeline");
    assert(id@ =~= s@.skip(prefix@.len() as int));
    Some(text::string_of(v.as_slice()))
}

/// The arguments every call starts with: no user configuration, and the
/// configured browser's cookies.
pub open spec fn base_args(browser: Browser) -> Seq<Seq<char>> {
    seq!["--config-ignore"@, "--cookies-from-browser"@, browser.name()]
}

fn base(program: &str, browser: Browser) -> (r: Invocation)
    ensures
        r.program@ == program@,
        r.args_of() == base_args(browser),
{
    let r = Invocation::new(program).arg("--config-ignore").arg("--cookies-from-browser").arg(
        browser.as_str(),
    );
    assert(r.args_of() =~= base_args(browser));
    r
}

/// Reads a timeline: posts without media too, cards through yt-dlp, and
/// neither quoted posts nor reposts as items of their own.
pub fn timeline_argv(program: &str, timeline: &str, browser: Browser) -> (r: Invocation)
    ensures
        r.program@ == program@,
        r.args_of() == base_args(browser) + seq![
            "--dump-json"@,
            "-o"@,
            "extractor.twitter.text-tweets=true"@,
            "-o"@,
            "extractor.twitter.cards=ytdl"@,
            "-o"@,
            "extractor.twitter.quoted=false"@,
            "-o"@,
            "extractor.twitter.retweets=false"@,
            timeline@,
        ],
{
    let r = base(program, browser).arg("--dump-json").arg("-o").arg(
        "extractor.twitter.text-tweets=true",
    ).arg("-o").arg("extractor.twitter.cards=ytdl").arg("-o").arg(
        "extractor.twitter.quoted=false",
    ).arg("-o").arg("extractor.twitter.retweets=false").arg(timeline);
    assert(r.args_of() =~= base_args(browser) + seq![
        "--dump-json"@,
        "-o"@,
        "extractor.twitter.text-tweets=true"@,
        "-o"@,
        "extractor.twitter.cards=ytdl"@,
        "-o"@,
        "extractor.twitter.quoted=false"@,
        "-o"@,
        "extractor.twitter.retweets=false"@,
        timeline@,
    ]);
    r
}

/// Reads one post.
pub fn describe_argv(program: &str, url: &NormalizedUrl, browser: Browser) -> (r: Invocation)
    ensures
        r.program@ == program@,
        r.args_of() == base_args(browser) + seq![
            "--dump-json"@,
            "-o"@,
            "extractor.twitter.text-tweets=true"@,
            url.text(),
        ],
{
    let r = base(program, browser).arg("--dump-json").arg("-o").arg(
        "extractor.twitter.text-tweets=true",
    ).arg(url.as_str());
    assert(r.args_of() =~= base_args(browser) + seq![
        "--dump-json"@,
        "-o"@,
        "extractor.twitter.text-tweets=true"@,
        url.text(),
    ]);
    r
}

/// Brings a post's files into `into`, numbered in the post's order.
pub fn download_argv(program: &str, url: &NormalizedUrl, into: &str, browser: Browser) -> (r:
    Invocation)
    ensures
        r.program@ == program@,
        r.args_of() == base_args(browser) + seq![
            "--directory"@,
            into@,
            "--filename"@,
            "{num}.{extension}"@,
            url.text(),
        ],
{
    let r = base(program, browser).arg("--directory").arg(into).arg("--filename").arg(
        "{num}.{extension}",
    ).arg(url.as_str());
    assert(r.args_of() =~= base_args(browser) + seq![
        "--directory"@,
        into@,
        "--filename"@,
        "{num}.{extension}"@,
        url.text(),
    ]);
    r
}

/// Whether a message says the login is missing or the cookies could not be
/// read, in any ASCII case.
pub open spec fn says_unauthenticated_spec(s: Seq<char>) -> bool {
    let l = ascii_lowered(s);
    ||| occurs_in(l, ascii_lowered("Login required"@))
    ||| occurs_in(l, ascii_lowered("authorization"@))
    ||| occurs_in(l, ascii_lowered("Unauthorized"@))
    ||| occurs_in(l, ascii_lowered("requires authentication"@))
    ||| occurs_in(l, ascii_lowered("could not find"@))
    ||| occurs_in(l, ascii_lowered("cookies database"@))
}

fn lowered_contains(l: &[char], marker: &str) -> (r: bool)
    ensures
        r == occurs_in(l@, ascii_lowered(marker@)),
{
    let m = text::ascii_lowercase(text::chars_of(marker).as_slice());
    text::chars_contain(l, m.as_slice())
}

/// Whether a message says the login is missing or the cookies could not be
/// read.
pub fn says_unauthenticated(s: &str) -> (r: bool)
    ensures
        r == says_unauthenticated_spec(s@),
{
    let l = text::ascii_lowercase(text::chars_of(s).as_slice());
    let l = l.as_slice();
    lowered_contains(l, "Login required") || lowered_contains(l, "authorization")
        || lowered_contains(l, "Unauthorized") || lowered_contains(l, "requires authentication")
        || lowered_contains(l, "could not find") || lowered_contains(l, "cookies database")
}

/// How a failed call is sorted: a login problem when its error output says
/// so, a passing failure of gallery-dl otherwise.
pub open spec fn classified(c: Completed, r: AdapterError) -> bool {
    &&& says_unauthenticated_spec(c.stderr@) ==> (r matches AdapterError::Unauthenticated {
        detail,
    } && detail@ == tail_of(c.stderr@))
    &&& !says_unauthenticated_spec(c.stderr@) ==> (r matches AdapterError::Transient {
        program,
        detail,
    } && program@ == program_name() && detail@ == tail_of(c.stderr@))
}

/// How a failure gallery-dl wrote into its output is sorted.
pub open spec fn failed_as(error: Seq<char>, message: Seq<char>, r: AdapterError) -> bool {
    &&& (error == "AuthRequired"@ || says_unauthenticated_spec(message)) ==> (r matches AdapterError::Unauthenticated {
        detail,
    } && detail@ == error + ": "@ + message)
    &&& !(error == "AuthRequired"@ || says_unauthenticated_spec(message)) ==> (r matches AdapterError::Transient {
        program,
        detail,
    } && program@ == program_name() && detail@ == error + ": "@ + message)
}

/// Sorts a failed call: a login problem, or a passing failure.
pub fn classify(completed: &Completed) -> (r: AdapterError)
    ensures
        classified(*completed, r),
        says_unauthenticated_spec(completed.stderr@) ==> (r matches AdapterError::Unauthenticated {
            detail,
        } && detail@ == tail_of(completed.stderr@)),
        !says_unauthenticated_spec(completed.stderr@) ==> (r matches AdapterError::Transient {
            program,
            detail,
        } && program@ == program_name() && detail@ == tail_of(completed.stderr@)),
{
    if says_unauthenticated(completed.stderr.as_str()) {
        AdapterError::Unauthenticated { detail: completed.stderr_tail() }
    } else {
        AdapterError::Transient { program: "gallery-dl".to_owned(), detail: completed.stderr_tail() }
    }
}

/// The failure that gallery-dl wrote into its output rather than its error
/// stream: a login problem when the error is `AuthRequired` or the message
/// says so, a passing failure otherwise.
pub fn failure(error: &str, message: &str) -> (r: AdapterError)
    ensures
        failed_as(error@, message@, r),
        (error@ == "AuthRequired"@ || says_unauthenticated_spec(message@)) ==> (r matches AdapterError::Unauthenticated {
            detail,
        } && detail@ == error@ + ": "@ + message@),
        !(error@ == "AuthRequired"@ || says_unauthenticated_spec(message@)) ==> (r matches AdapterError::Transient {
            program,
            detail,
        } && program@ == program_name() && detail@ == error@ + ": "@ + message@),
{
    let mut v: Vec<char> = Vec::new();
    text::append(&mut v, error);
    text::append(&mut v, ": ");
    text::append(&mut v, message);
    let detail = text::string_of(v.as_slice());
    if text::same(error, "AuthRequired") || says_unauthenticated(message) {
        AdapterError::Unauthenticated { detail }
    } else {
        AdapterError::Transient { program: "gallery-dl".to_owned(), detail }
    }
}

/// A reading failure of gallery-dl's output.
fn parse_error(detail: String) -> (r: AdapterError)
    ensures
        r matches AdapterError::Parse { program, detail: d } && program@ == program_name() && d@
            == detail@,
{
    AdapterError::Parse { program: "gallery-dl".to_owned(), detail }
}

/// The canonical URL text a post's identifier stands for.
pub open spec fn status_text(id: i64) -> Seq<char> {
    "https://x.com/i/status/"@ + decimal::signed_decimal(id as int)
}

/// The canonical URL of the post with identifier `id`.
pub fn status_url(id: i64) -> (r: Result<NormalizedUrl, AdapterError>)
    ensures
        match item_outcome(status_text(id)) {
            Ok((u, _)) => r matches Ok(n) && n.text() == u,
            Err(f) => r matches Err(AdapterError::Parse { program, detail }) && program@
                == program_name() && detail@ == fault_message(f),
        },
{
    let mut v: Vec<char> = Vec::new();
    text::append(&mut v, "https://x.com/i/status/");
    let n = decimal::signed_decimal_of(id);
    text::append_chars(&mut v, n.as_slice());
    let raw = text::string_of(v.as_slice());
    match url::normalize_item(raw.as_str()) {
        Ok((u, _)) => Ok(u),
        Err(e) => Err(parse_error(e.message())),
    }
}

/// A reply or quote link: none for 0, the post's URL otherwise.
pub fn link(id: i64) -> (r: Result<Option<NormalizedUrl>, AdapterError>)
    ensures
        id == 0 ==> r matches Ok(None),
        id != 0 ==> match item_outcome(status_text(id)) {
            Ok((u, _)) => r matches Ok(Some(n)) && n.text() == u,
            Err(f) => r matches Err(AdapterError::Parse { program, detail }) && program@
                == program_name() && detail@ == fault_message(f),
        },
{
    if id == 0 {
        Ok(None)
    } else {
        match status_url(id) {
            Ok(u) => Ok(Some(u)),
            Err(e) => Err(e),
        }
    }
}

/// What `chrono::NaiveDateTime::parse_from_str` with `%Y-%m-%d %H:%M:%S`
/// reads from a text, taken as UTC and given in Unix seconds.
pub uninterp spec fn naive_utc_reading(text: Seq<char>) -> Option<(i64, u32)>;

/// `chrono::NaiveDateTime::parse_from_str(text, "%Y-%m-%d %H:%M:%S")`, taken
/// as UTC: the Unix seconds and the nanoseconds past that second.
///
/// Claims that the answer is a function of the text, and, as `chrono` holds
/// a time (a seconds field of 60 is read as the 59th second and one second
/// more), that the nanoseconds are under two seconds and a whole second or
/// more only on the 59th second of a minute.
#[verifier::external_body]
fn read_naive_utc(text: &str) -> (r: Option<(i64, u32)>)
    ensures
        r == naive_utc_reading(text@),
        r matches Some((s, n)) ==> n < 2 * LEAP_NANOS && (n >= LEAP_NANOS ==> s % 60 == 59),
{
    match chrono::NaiveDateTime::parse_from_str(text, "%Y-%m-%d %H:%M:%S") {
        Ok(naive) => Some((naive.and_utc().timestamp(), naive.and_utc().timestamp_subsec_nanos())),
        Err(_) => None,
    }
}

/// The seconds a post's date stands for, and whether it is a leap second,
/// when it reads as a date in the range the library holds.
pub open spec fn date_seconds(date: Seq<char>) -> Option<(i64, bool)> {
    match naive_utc_reading(text::trimmed(date)) {
        Some((s, n)) => if EARLIEST <= s <= LATEST {
            Some((s, n >= LEAP_NANOS))
        } else {
            None
        },
        None => None,
    }
}

/// The message for a date that does not read.
pub open spec fn bad_date_message(date: Seq<char>) -> Seq<char> {
    "日時として読めない `"@ + date + "`"@
}

/// A post's date, in UTC.
fn naive_utc(date: &str) -> (r: Result<Timestamp, AdapterError>)
    ensures
        match date_seconds(date@) {
            Some((s, leap)) => r matches Ok(t) && t.instant() == s && t.offset_secs() == 0
                && t.is_leap() == leap,
            None => r matches Err(AdapterError::Parse { program, detail }) && program@
                == program_name() && detail@ == bad_date_message(date@),
        },
{
    let t = text::string_of(text::trim(date).as_slice());
    let seconds = read_naive_utc(t.as_str());
    let read = match seconds {
        Some((s, n)) => Timestamp::from_parts(s, 0, n),
        None => None,
    };
    match read {
        Some(t) => Ok(t),
        None => {
            let mut v: Vec<char> = Vec::new();
            text::append(&mut v, "日時として読めない `");
            text::append(&mut v, date);
            text::append(&mut v, "`");
            Err(parse_error(text::string_of(v.as_slice())))
        },
    }
}

/// Why reading a timeline failed, as text.
pub enum TimelineFault {
    /// gallery-dl reported a failure: its error name and message.
    Failed(Seq<char>, Seq<char>),
    /// The output could not be read; the detail.
    Reading(Seq<char>),
}

/// Whether a link column stands for the given link.
pub open spec fn link_matches(link: Option<NormalizedUrl>, id: i64) -> bool {
    if id == 0 {
        link is None
    } else {
        link matches Some(n) && item_outcome(status_text(id)) matches Ok((u, _)) && n.text() == u
    }
}

/// The first thing that keeps a post's header from becoming an item, if any.
pub open spec fn post_fault(m: TweetMetadata) -> Option<Seq<char>> {
    match item_outcome(status_text(m.tweet_id)) {
        Err(f) => Some(fault_message(f)),
        Ok(_) => if date_seconds(m.date@) is None {
            Some(bad_date_message(m.date@))
        } else {
            match link_fault(m.reply_id) {
                Some(d) => Some(d),
                None => link_fault(m.quoted_id),
            }
        },
    }
}

/// What keeps a link column from reading, if anything.
pub open spec fn link_fault(id: i64) -> Option<Seq<char>> {
    if id == 0 {
        None
    } else {
        match item_outcome(status_text(id)) {
            Err(f) => Some(fault_message(f)),
            Ok(_) => None,
        }
    }
}

/// Whether an item is what a post's header, with or without files after
/// it, describes.
pub open spec fn found_matches(f: Found, m: TweetMetadata, media: bool) -> bool {
    &&& item_outcome(status_text(m.tweet_id)) matches Ok((u, _)) && f.url.text() == u
    &&& date_seconds(m.date@) matches Some((s, leap)) && f.published_at.instant() == s
        && f.published_at.is_leap() == leap
    &&& f.published_at.offset_secs() == 0
    &&& f.scheduled_start_at is None
    &&& f.content matches Content::Post { body, in_reply_to, quoted } && body@ == m.content@
        && link_matches(in_reply_to, m.reply_id) && link_matches(quoted, m.quoted_id)
    &&& f.media == (if media {
        MediaPresence::Present
    } else {
        MediaPresence::Absent
    })
}

/// What a run of output elements says: the post headers in order, each
/// with whether files followed it, or the first thing that failed.
pub open spec fn timeline_view(entries: Seq<Entry>) -> Result<Seq<(TweetMetadata, bool)>, TimelineFault>
    decreases entries.len(),
{
    if entries.len() == 0 {
        Ok(Seq::empty())
    } else {
        match timeline_view(entries.drop_last()) {
            Err(e) => Err(e),
            Ok(posts) => match entries.last() {
                Entry::Failed { error, message } => Err(TimelineFault::Failed(error@, message@)),
                Entry::BadPost(reason) => Err(TimelineFault::Reading(reason@)),
                Entry::Post(m) => match post_fault(m) {
                    Some(d) => Err(TimelineFault::Reading(d)),
                    None => Ok(posts.push((m, false))),
                },
                Entry::File => if posts.len() == 0 {
                    Err(TimelineFault::Reading("見出しの前にファイルが出た"@))
                } else {
                    Ok(posts.update(posts.len() - 1, (posts.last().0, true)))
                },
                Entry::Unknown(k) => Err(
                    TimelineFault::Reading("知らない出力の種別 "@ + decimal::signed_decimal(k as int)),
                ),
                Entry::NotAnArray => Err(TimelineFault::Reading("配列でない要素がある"@)),
                Entry::NoKind => Err(TimelineFault::Reading("要素の先頭が種別でない"@)),
                Entry::EmptyPost => Err(TimelineFault::Reading("見出しに中身が無い"@)),
            },
        }
    }
}

/// Once a prefix of the output fails, the whole output fails the same way.
proof fn lemma_view_err_persists(es: Seq<Entry>, k: int)
    requires
        0 <= k <= es.len(),
    ensures
        timeline_view(es.take(k)) is Err ==> timeline_view(es) == timeline_view(es.take(k)),
    decreases es.len() - k,
{
    if k < es.len() {
        lemma_view_err_persists(es, k + 1);
        assert(es.take(k + 1).drop_last() =~= es.take(k));
    } else {
        assert(es.take(k) =~= es);
    }
}

/// The item a post's header describes; files are not known yet.
pub fn post(meta: &TweetMetadata) -> (r: Result<Found, AdapterError>)
    ensures
        match post_fault(*meta) {
            None => r matches Ok(f) && found_matches(f, *meta, false),
            Some(d) => r matches Err(AdapterError::Parse { program, detail }) && program@
                == program_name() && detail@ == d,
        },
{
    let url = match status_url(meta.tweet_id) {
        Ok(u) => u,
        Err(e) => return Err(e),
    };
    let published_at = match naive_utc(meta.date.as_str()) {
        Ok(t) => t,
        Err(e) => return Err(e),
    };
    let in_reply_to = match link(meta.reply_id) {
        Ok(l) => l,
        Err(e) => return Err(e),
    };
    let quoted = match link(meta.quoted_id) {
        Ok(l) => l,
        Err(e) => return Err(e),
    };
    Ok(Found {
        url,
        scheduled_start_at: None,
        published_at,
        content: Content::Post { body: meta.content.clone(), in_reply_to, quoted },
        media: MediaPresence::Absent,
    })
}

/// Reads gallery-dl's output, given element by element or with the reason
/// it is not a list at all. A failure written into the output is a failure,
/// not an empty timeline.
pub fn parse_timeline(entries: Result<Vec<Entry>, String>) -> (r: Result<Vec<Found>, AdapterError>)
    ensures
        entries matches Err(reason) ==> (r matches Err(AdapterError::Parse { program, detail })
            && program@ == program_name() && detail@ == reason@),
        entries matches Ok(es) ==> match timeline_view(es@) {
            Ok(posts) => r matches Ok(v) && v@.len() == posts.len() && forall|j: int|
                0 <= j < posts.len() ==> found_matches(#[trigger] v@[j], posts[j].0, posts[j].1),
            Err(TimelineFault::Failed(error, message)) => r matches Err(e) && ((error == "AuthRequired"@
                || says_unauthenticated_spec(message)) ==> (e matches AdapterError::Unauthenticated {
                detail } && detail@ == error + ": "@ + message)) && (!(error == "AuthRequired"@
                || says_unauthenticated_spec(message)) ==> (e matches AdapterError::Transient {
                program, detail } && program@ == program_name() && detail@ == error + ": "@
                + message)),
            Err(TimelineFault::Reading(d)) => r matches Err(AdapterError::Parse { program, detail })
                && program@ == program_name() && detail@ == d,
        },
{
    let es = match entries {
        Ok(es) => es,
        Err(reason) => return Err(parse_error(reason)),
    };
    let ghost whole = es@;
    let mut found: Vec<Found> = Vec::new();
    let mut i: usize = 0;
    while i < es.len()
        invariant
            i <= es@.len(),
            es@ == whole,
            entries matches Ok(x) && x@ == whole,
            timeline_view(es@.take(i as int)) matches Ok(posts) && found@.len() == posts.len()
                && forall|j: int|
                0 <= j < posts.len() ==> found_matches(#[trigger] found@[j], posts[j].0, posts[j].1),
        decreases es@.len() - i,
    {
        assert(es@.take(i + 1).drop_last() =~= es@.take(i as int));
        let ghost posts = timeline_view(es@.take(i as int))->Ok_0;
        proof {
            lemma_view_err_persists(es@, i + 1);
        }
        let ghost before = found@;
        match &es[i] {
            Entry::Failed { error, message } => {
                return Err(failure(error.as_str(), message.as_str()));
            },
            Entry::BadPost(reason) => {
                return Err(parse_error(reason.clone()));
            },
            Entry::Post(meta) => {
                match post(meta) {
                    Ok(f) => {
                        found.push(f);
                        assert(forall|j: int| 0 <= j < before.len() ==> found@[j] == before[j]);
                    },
                    Err(e) => return Err(e),
                }
            },
            Entry::File => {
                if found.len() == 0 {
                    return Err(parse_error("見出しの前にファイルが出た".to_owned()));
                }
                let last = found.len() - 1;
                let mut f = found.remove(last);
                f.media = MediaPresence::Present;
                found.push(f);
                assert(forall|j: int| 0 <= j < last ==> found@[j] == before[j]);
            },
            Entry::Unknown(k) => {
                let mut v: Vec<char> = Vec::new();
                text::append(&mut v, "知らない出力の種別 ");
                let n = decimal::signed_decimal_of(*k);
                text::append_chars(&mut v, n.as_slice());
                return Err(parse_error(text::string_of(v.as_slice())));
            },
            Entry::NotAnArray => {
                return Err(parse_error("配列でない要素がある".to_owned()));
            },
            Entry::NoKind => {
                return Err(parse_error("要素の先頭が種別でない".to_owned()));
            },
            Entry::EmptyPost => {
                return Err(parse_error("見出しに中身が無い".to_owned()));
            },
        }
        i = i + 1;
    }
    assert(es@.take(es@.len() as int) =~= es@);
    Ok(found)
}

/// The extension of a file name, as `Path::extension` gives it: after the
/// last dot, unless that dot starts the name.
pub open spec fn extension_of(name: Seq<char>) -> Option<Seq<char>> {
    let d = last_dot(name);
    if name == seq!['.', '.'] || d <= 0 {
        None
    } else {
        Some(name.skip(d + 1))
    }
}

/// The position of the last dot, or -1.
pub open spec fn last_dot(s: Seq<char>) -> int
    decreases s.len(),
{
    if s.len() == 0 {
        -1
    } else if s.last() == '.' {
        s.len() - 1
    } else {
        last_dot(s.drop_last())
    }
}

proof fn lemma_last_dot(s: Seq<char>)
    ensures
        -1 <= last_dot(s) < s.len(),
        last_dot(s) >= 0 ==> s[last_dot(s)] == '.',
        forall|i: int| last_dot(s) < i < s.len() ==> s[i] != '.',
    decreases s.len(),
{
    if s.len() > 0 && s.last() != '.' {
        let t = s.drop_last();
        lemma_last_dot(t);
        assert forall|i: int| last_dot(s) < i < s.len() implies s[i] != '.' by {
            if i < s.len() - 1 {
                assert(s[i] == t[i]);
            }
        }
    }
}

fn extension_of_exec(name: &[char]) -> (r: Option<Vec<char>>)
    ensures
        match r {
            Some(e) => extension_of(name@) == Some(e@),
            None => extension_of(name@) is None,
        },
{
    let mut k: usize = name.len();
    while k > 0 && name[k - 1] != '.'
        invariant
            k <= name@.len(),
            forall|i: int| k <= i < name@.len() ==> name@[i] != '.',
        decreases k,
    {
        k = k - 1;
    }
    proof {
        lemma_last_dot(name@);
        if k > 0 {
            assert(name@[k - 1] == '.');
        }
        assert(last_dot(name@) == k - 1) by {
            if last_dot(name@) > k - 1 {
                assert(name@[last_dot(name@)] == '.');
            }
            if last_dot(name@) < k - 1 {
                assert(name@[k - 1] != '.');
            }
        }
    }
    let dotdot = name.len() == 2 && name[0] == '.' && name[1] == '.';
    proof {
        if name@ == seq!['.', '.'] {
            assert(name@[0] == '.' && name@[1] == '.');
        }
        if dotdot {
            assert(name@ =~= seq!['.', '.']);
        }
    }
    if dotdot || k <= 1 {
        None
    } else {
        let e = text::slice_chars(name, k, name.len());
        assert(e@ =~= name@.skip(k as int));
        Some(e)
    }
}

/// How many planned files are of a kind.
pub open spec fn count_kind(p: Seq<(Seq<char>, AssetKind, u32, Seq<char>)>, k: AssetKind) -> nat
    decreases p.len(),
{
    if p.len() == 0 {
        0
    } else {
        count_kind(p.drop_last(), k) + if p.last().1 == k {
            1nat
        } else {
            0nat
        }
    }
}

/// What becomes of downloaded files, taken in order: each whose extension
/// names a kind becomes the next file of that kind, numbered from 1 per
/// kind, its extension in small letters; the rest are left alone.
pub open spec fn planned(names: Seq<Seq<char>>) -> Seq<(Seq<char>, AssetKind, u32, Seq<char>)>
    decreases names.len(),
{
    if names.len() == 0 {
        Seq::empty()
    } else {
        let p = planned(names.drop_last());
        match extension_of(names.last()) {
            Some(e) => match AssetKind::of_lowered_extension(ascii_lowered(e)) {
                Some(k) => p.push((names.last(), k, (count_kind(p, k) + 1) as u32, ascii_lowered(e))),
                None => p,
            },
            None => p,
        }
    }
}

proof fn lemma_count_kind_le(p: Seq<(Seq<char>, AssetKind, u32, Seq<char>)>, k: AssetKind)
    ensures
        count_kind(p, k) <= p.len(),
    decreases p.len(),
{
    if p.len() > 0 {
        lemma_count_kind_le(p.drop_last(), k);
    }
}

proof fn lemma_planned_len(names: Seq<Seq<char>>)
    ensures
        planned(names).len() <= names.len(),
    decreases names.len(),
{
    if names.len() > 0 {
        lemma_planned_len(names.drop_last());
    }
}

/// Where downloaded files go: each renamed file with the asset it becomes,
/// in the order of the downloaded names, and the assets in listing order.
pub struct Placement {
    pub renames: Vec<(String, Asset)>,
    pub assets: Vec<Asset>,
}

/// The plain values of planned renames.
pub open spec fn rename_views(v: Seq<(String, Asset)>) -> Seq<(Seq<char>, AssetKind, u32, Seq<char>)> {
    Seq::new(v.len(), |i: int| (v[i].0@, v[i].1.kind_of(), v[i].1.ordinal_of(), v[i].1.extension_of()))
}

/// The assets of planned renames.
pub open spec fn planned_assets(p: Seq<(Seq<char>, AssetKind, u32, Seq<char>)>) -> Seq<(AssetKind, u32, Seq<char>)> {
    Seq::new(p.len(), |i: int| (p[i].1, p[i].2, p[i].3))
}

/// Moves what gallery-dl downloaded into the naming rule: files are taken
/// in the order of their names, which is the post's order, and numbered per
/// kind. Nothing usable downloaded is a reading failure.
pub fn place_downloads(names: Vec<String>) -> (r: Result<Placement, AdapterError>)
    requires
        names@.len() <= u32::MAX,
    ensures
        exists|s: Seq<Seq<char>>| {
            &&& sorted(s)
            &&& s.to_multiset() == texts(names@).to_multiset()
            &&& match r {
                Ok(p) => {
                    &&& planned(s).len() > 0
                    &&& rename_views(p.renames@) == planned(s)
                    &&& assets_sorted(asset_views(p.assets@))
                    &&& asset_views(p.assets@).to_multiset() == planned_assets(planned(s)).to_multiset()
                },
                Err(e) => e matches AdapterError::Parse { program, detail } && program@
                    == program_name() && detail@ == "成功したが実体が置かれていない"@ && planned(s).len()
                    == 0,
            }
        },
{
    let ordered = order::sort_texts(names);
    let ghost s = texts(ordered@);
    proof {
        vstd::seq_lib::to_multiset_len(texts(ordered@));
    }
    assert(s.len() <= u32::MAX) by {
        broadcast use vstd::seq_lib::group_to_multiset_ensures;
        assert(s.len() == s.to_multiset().len());
    }
    let mut renames: Vec<(String, Asset)> = Vec::new();
    let mut assets: Vec<Asset> = Vec::new();
    let mut counts: [u32; 4] = [0, 0, 0, 0];
    let mut i: usize = 0;
    while i < ordered.len()
        invariant
            i <= ordered@.len(),
            s == texts(ordered@),
            s.len() <= u32::MAX,
            rename_views(renames@) == planned(s.take(i as int)),
            asset_views(assets@) == planned_assets(planned(s.take(i as int))),
            forall|k: AssetKind| #[trigger] counts@[k.rank()] == count_kind(planned(s.take(i as int)), k),
        decreases ordered@.len() - i,
    {
        let ghost prefix = s.take(i as int);
        assert(s.take(i + 1).drop_last() =~= prefix);
        assert(s.take(i + 1).last() == ordered@[i as int]@);
        proof {
            lemma_planned_len(prefix);
            lemma_count_kind_le(planned(prefix), AssetKind::Video);
            lemma_count_kind_le(planned(prefix), AssetKind::Audio);
            lemma_count_kind_le(planned(prefix), AssetKind::Image);
            lemma_count_kind_le(planned(prefix), AssetKind::Transcript);
        }
        let name = text::chars_of(ordered[i].as_str());
        match extension_of_exec(name.as_slice()) {
            Some(e) => {
                let lowered = text::ascii_lowercase(e.as_slice());
                let lowered_text = text::string_of(lowered.as_slice());
                match AssetKind::of_extension(lowered_text.as_str()) {
                    Some(kind) => {
                        proof {
                            assert(ascii_lowered(lowered@) =~= lowered@) by {
                                assert forall|j: int| 0 <= j < lowered@.len() implies text::ascii_lower(
                                    lowered@[j],
                                ) == lowered@[j] by {}
                            }
                        }
                        let slot: usize = match kind {
                            AssetKind::Video => 0,
                            AssetKind::Audio => 1,
                            AssetKind::Image => 2,
                            AssetKind::Transcript => 3,
                        };
                        assert(slot == kind.rank());
                        let ordinal = counts[slot] + 1;
                        counts[slot] = ordinal;
                        let asset = Asset::new(kind, ordinal, lowered_text);
                        let ghost rb = renames@;
                        let ghost ab = assets@;
                        renames.push((ordered[i].clone(), asset.clone()));
                        assets.push(asset);
                        assert(rename_views(renames@) =~= rename_views(rb).push(
                            (s[i as int], kind, ordinal, lowered@),
                        ));
                        assert(asset_views(assets@) =~= asset_views(ab).push((kind, ordinal, lowered@)));
                        assert(planned_assets(planned(s.take(i + 1))) =~= planned_assets(
                            planned(prefix),
                        ).push((kind, ordinal, lowered@)));
                        assert forall|k: AssetKind| #[trigger] counts@[k.rank()] == count_kind(
                            planned(s.take(i + 1)),
                            k,
                        ) by {
                            assert(planned(s.take(i + 1)).drop_last() =~= planned(prefix));
                        }
                    },
                    None => {
                        proof {
                            assert(ascii_lowered(lowered@) =~= lowered@) by {
                                assert forall|j: int| 0 <= j < lowered@.len() implies text::ascii_lower(
                                    lowered@[j],
                                ) == lowered@[j] by {}
                            }
                            assert(planned(s.take(i + 1)) =~= planned(prefix));
                        }
                    },
                }
            },
            None => {
                assert(planned(s.take(i + 1)) =~= planned(prefix));
            },
        }
        i = i + 1;
    }
    assert(s.take(ordered@.len() as int) =~= s);
    if renames.len() == 0 {
        return Err(parse_error("成功したが実体が置かれていない".to_owned()));
    }
    let sorted_assets = sort_assets(assets);
    Ok(Placement { renames, assets: sorted_assets })
}

/// gallery-dl's words for a missing login or unreadable cookies, in any
/// ASCII case: the lowered text of each marker.
pub open spec fn names_login_trouble(s: Seq<char>) -> bool {
    let l = ascii_lowered(s);
    ||| occurs_in(l, "login required"@)
    ||| occurs_in(l, "authorization"@)
    ||| occurs_in(l, "unauthorized"@)
    ||| occurs_in(l, "requires authentication"@)
    ||| occurs_in(l, "could not find"@)
    ||| occurs_in(l, "cookies database"@)
}

proof fn lemma_markers_lowered()
    ensures
        ascii_lowered("Login required"@) == "login required"@,
        ascii_lowered("authorization"@) == "authorization"@,
        ascii_lowered("Unauthorized"@) == "unauthorized"@,
        ascii_lowered("requires authentication"@) == "requires authentication"@,
        ascii_lowered("could not find"@) == "could not find"@,
        ascii_lowered("cookies database"@) == "cookies database"@,
{
    reveal_strlit("Login required");
    reveal_strlit("login required");
    reveal_strlit("authorization");
    reveal_strlit("Unauthorized");
    reveal_strlit("unauthorized");
    reveal_strlit("requires authentication");
    reveal_strlit("could not find");
    reveal_strlit("cookies database");
    assert(ascii_lowered("Login required"@) =~= "login required"@);
    assert(ascii_lowered("authorization"@) =~= "authorization"@);
    assert(ascii_lowered("Unauthorized"@) =~= "unauthorized"@);
    assert(ascii_lowered("requires authentication"@) =~= "requires authentication"@);
    assert(ascii_lowered("could not find"@) =~= "could not find"@);
    assert(ascii_lowered("cookies database"@) =~= "cookies database"@);
}

/// A failed call whose error output names a missing login or unreadable
/// cookies, in any ASCII case (`401 Unauthorized`, `Login required`), is a
/// login problem: the platform is halted for the round rather than every
/// item using up its retries. Any other failed call is a passing failure.
pub proof fn lemma_login_trouble_is_unauthenticated(c: Completed, r: AdapterError)
    requires
        classified(c, r),
    ensures
        names_login_trouble(c.stderr@) ==> r is Unauthenticated,
        !names_login_trouble(c.stderr@) ==> r is Transient,
{
    lemma_markers_lowered();
}

/// The same holds of a failure gallery-dl wrote into its output, where an
/// `AuthRequired` error is a login problem too.
pub proof fn lemma_reported_login_trouble_is_unauthenticated(
    error: Seq<char>,
    message: Seq<char>,
    r: AdapterError,
)
    requires
        failed_as(error, message, r),
    ensures
        error == "AuthRequired"@ || names_login_trouble(message) ==> r is Unauthenticated,
        !(error == "AuthRequired"@ || names_login_trouble(message)) ==> r is Transient,
{
    lemma_markers_lowered();
}

} // verus!
