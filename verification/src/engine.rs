//! The rounds: which item moves when, and what a failure does to the ledger.
//!
//! The loop itself — reading the ledger, running the tools, sleeping — stays
//! with the program around the library. What is decided is here, as
//! functions from what was observed to what is to be done, with the clock
//! passed in rather than read.
//!
//! Failures of the external tools are not one kind: whether the ledger moves
//! depends on how the tool failed. A platform-wide problem such as dead
//! cookies must never use up an item's retries and turn it into an error.

use vstd::prelude::*;

use crate::adapter::{AdapterError, Found};
use crate::item::Discovered;
use crate::config::Config;
use crate::content::Platform;
use crate::disk::Room;
use crate::liveness::Presence;
use crate::source::{Exclude, Source, SourceId};
use crate::content::ContentType;
use crate::state::Event;
use crate::text::{self, opens_with};
use crate::timestamp::{Timestamp, DAY, LATEST};
use crate::url::NormalizedUrl;

verus! {

/// What the rounds keep to, out of the settings.
#[derive(Debug, Clone, Copy, PartialEq, Eq)]
pub struct Limits {
    /// Below this many gibibytes free, no acquisition starts.
    pub min_free_gib: u64,
    /// A failure beyond this many retries turns an item into an error.
    pub max_retries: u32,
}

impl Limits {
    /// The limits the settings set.
    pub fn from_config(config: &Config) -> (r: Limits)
        ensures
            r.min_free_gib == config.storage.min_free_gb,
            r.max_retries == config.acquire.max_retries,
    {
        Limits { min_free_gib: config.storage.min_free_gb, max_retries: config.acquire.max_retries }
    }
}

/// What a failed tool does to the ledger.
#[derive(Debug, Clone, Copy, PartialEq, Eq, Structural)]
pub enum Handling {
    /// Count it and try again next round; past the retries, an error.
    Retry,
    /// A problem of the whole platform: stop it for this round and tell a
    /// person. The item does not move and nothing is counted.
    Halt,
    /// The tool has probably changed: tell a person. The item does not move
    /// and nothing is counted.
    Notify,
    /// The source lost the item: trying again cannot help, give up now.
    Abandon,
}

/// How each kind of failure is handled. Every kind is named, so that a new
/// kind cannot slip into one that uses up retries.
pub open spec fn handling_of(error: AdapterError) -> Handling {
    match error {
        AdapterError::Launch { .. } => Handling::Halt,
        AdapterError::Unauthenticated { .. } => Handling::Halt,
        AdapterError::Rejected { .. } => Handling::Halt,
        AdapterError::Parse { .. } => Handling::Notify,
        AdapterError::Unavailable { .. } => Handling::Abandon,
        AdapterError::Transient { .. } => Handling::Retry,
    }
}

/// How a failure is handled.
///
/// A tool that cannot start stops everything it serves; a refusal closes
/// the way out for a while, so the platform stops for the round rather than
/// being asked again at once.
pub fn handling(error: &AdapterError) -> (r: Handling)
    ensures
        r == handling_of(*error),
{
    match error {
        AdapterError::Launch { .. } => Handling::Halt,
        AdapterError::Unauthenticated { .. } => Handling::Halt,
        AdapterError::Rejected { .. } => Handling::Halt,
        AdapterError::Parse { .. } => Handling::Notify,
        AdapterError::Unavailable { .. } => Handling::Abandon,
        AdapterError::Transient { .. } => Handling::Retry,
    }
}

/// What a person is told. Never written to the ledger: the ledger is for
/// what could not be had, not for expired cookies.
#[derive(Debug, Clone, PartialEq, Eq)]
pub enum Notice {
    /// A platform's acquisition stopped for this round; it is tried again
    /// next round, and this shows each round until it is fixed.
    Halted { platform: Platform, detail: String },
    /// An external tool's output could not be read.
    ToolDrifted { detail: String },
    /// Not enough free space, so no acquisition started this round.
    NoRoom(Room),
}

/// What one round did.
#[derive(Debug, Clone, PartialEq, Eq)]
pub struct Report {
    /// Items added to the ledger.
    pub discovered: usize,
    /// Items moved one step.
    pub advanced: usize,
    /// Items turned into errors.
    pub failed: usize,
    /// Items kept because the source lost them.
    pub kept: usize,
    /// Items discarded because the source had them until the deadline.
    pub discarded: usize,
    /// What a person is told.
    pub notices: Vec<Notice>,
}

impl Default for Report {
    fn default() -> (r: Report)
        ensures
            r.discovered == 0 && r.advanced == 0 && r.failed == 0 && r.kept == 0 && r.discarded
                == 0,
            r.notices@.len() == 0,
    {
        Report { discovered: 0, advanced: 0, failed: 0, kept: 0, discarded: 0, notices: Vec::new() }
    }
}

/// Whether a notice halts a platform.
pub open spec fn halts(n: Notice, platform: Platform) -> bool {
    n matches Notice::Halted { platform: p, .. } && p == platform
}

impl Report {
    /// How many items a report moved, in any way.
    pub open spec fn moved_spec(self) -> int {
        self.discovered + self.advanced + self.failed + self.kept + self.discarded
    }

    /// Adds another round's report, so that one waking is reported once.
    pub fn absorb(&mut self, other: Report)
        requires
            old(self).discovered + other.discovered <= usize::MAX,
            old(self).advanced + other.advanced <= usize::MAX,
            old(self).failed + other.failed <= usize::MAX,
            old(self).kept + other.kept <= usize::MAX,
            old(self).discarded + other.discarded <= usize::MAX,
        ensures
            final(self).discovered == old(self).discovered + other.discovered,
            final(self).advanced == old(self).advanced + other.advanced,
            final(self).failed == old(self).failed + other.failed,
            final(self).kept == old(self).kept + other.kept,
            final(self).discarded == old(self).discarded + other.discarded,
            final(self).notices@ == old(self).notices@ + other.notices@,
    {
        self.discovered = self.discovered + other.discovered;
        self.advanced = self.advanced + other.advanced;
        self.failed = self.failed + other.failed;
        self.kept = self.kept + other.kept;
        self.discarded = self.discarded + other.discarded;
        let mut more = other.notices;
        self.notices.append(&mut more);
    }

    /// Whether anything moved this round.
    pub fn moved(&self) -> (r: usize)
        requires
            self.moved_spec() <= usize::MAX,
        ensures
            r == self.moved_spec(),
    {
        self.discovered + self.advanced + self.failed + self.kept + self.discarded
    }

    /// Whether a platform is left alone for the rest of this round: once
    /// its cookies were refused, every later call would be refused too.
    pub fn halted(&self, platform: Platform) -> (r: bool)
        ensures
            r <==> exists|i: int| 0 <= i < self.notices@.len() && halts(#[trigger] self.notices@[i], platform),
    {
        let mut i: usize = 0;
        while i < self.notices.len()
            invariant
                i <= self.notices@.len(),
                forall|j: int| 0 <= j < i ==> !halts(#[trigger] self.notices@[j], platform),
            decreases self.notices@.len() - i,
        {
            match &self.notices[i] {
                Notice::Halted { platform: p, .. } => {
                    if *p == platform {
                        assert(halts(self.notices@[i as int], platform));
                        return true;
                    }
                },
                _ => {},
            }
            i = i + 1;
        }
        false
    }

    /// Notes a failure: a platform-wide problem halts the platform (or, with
    /// no platform to name, is reported as a tool problem), a changed tool
    /// is reported, and the rest is left to the caller.
    pub fn note(&mut self, platform: Option<Platform>, error: &AdapterError) -> (r: Handling)
        ensures
            r == handling_of(*error),
            final(self).discovered == old(self).discovered,
            final(self).advanced == old(self).advanced,
            final(self).failed == old(self).failed,
            final(self).kept == old(self).kept,
            final(self).discarded == old(self).discarded,
            r == Handling::Halt && platform is Some ==> {
                &&& final(self).notices@.len() == old(self).notices@.len() + 1
                &&& final(self).notices@.drop_last() == old(self).notices@
                &&& final(self).notices@.last() matches Notice::Halted { platform: p, detail }
                &&& Some(p) == platform
                &&& detail@ == error.message_of()
            },
            (r == Handling::Halt && platform is None) || r == Handling::Notify ==> {
                &&& final(self).notices@.len() == old(self).notices@.len() + 1
                &&& final(self).notices@.drop_last() == old(self).notices@
                &&& final(self).notices@.last() matches Notice::ToolDrifted { detail }
                &&& detail@ == error.message_of()
            },
            r == Handling::Retry || r == Handling::Abandon ==> final(self).notices@ == old(
                self,
            ).notices@,
    {
        let h = handling(error);
        match h {
            Handling::Halt => {
                match platform {
                    Some(p) => {
                        self.notices.push(Notice::Halted { platform: p, detail: error.message() });
                    },
                    None => {
                        self.notices.push(Notice::ToolDrifted { detail: error.message() });
                    },
                }
            },
            Handling::Notify => {
                self.notices.push(Notice::ToolDrifted { detail: error.message() });
            },
            Handling::Retry | Handling::Abandon => {},
        }
        proof {
            if h == Handling::Halt || h == Handling::Notify {
                assert(self.notices@.drop_last() =~= old(self).notices@);
            }
        }
        h
    }
}

/// What a failure leads to, once noted.
#[derive(Debug, Clone, Copy, PartialEq, Eq, Structural)]
pub enum Step {
    /// Nothing moves: the notice says it all.
    Leave,
    /// Give up on the item now.
    GiveUp,
    /// Count a failed attempt against the item.
    Count,
}

/// What a handled failure does to the item.
pub fn step_for(h: Handling) -> (r: Step)
    ensures
        (h == Handling::Halt || h == Handling::Notify) <==> r == Step::Leave,
        h == Handling::Abandon <==> r == Step::GiveUp,
        h == Handling::Retry <==> r == Step::Count,
{
    match h {
        Handling::Halt | Handling::Notify => Step::Leave,
        Handling::Abandon => Step::GiveUp,
        Handling::Retry => Step::Count,
    }
}

/// Whether an item is given up after `attempts` failed attempts. The
/// setting counts retries, so the first attempt is added: with no retries,
/// the first failure gives up.
pub fn gives_up(attempts: u32, limits: Limits) -> (r: bool)
    ensures
        r <==> attempts > limits.max_retries,
{
    attempts > limits.max_retries
}

/// What a liveness check does to a held item: the event to apply, or none
/// to leave it held for the next check.
///
/// Gone from the source: kept. Present, on a source with hold days, at or
/// past the deadline: discarded. Anything else — unknown, present before
/// the deadline, a source without hold days — moves nothing: silence is
/// never a confirmation.
pub fn liveness_verdict(
    presence: Presence,
    hold_days: Option<u32>,
    state_since: Timestamp,
    now: Timestamp,
) -> (r: Option<Event>)
    ensures
        presence == Presence::Gone ==> r == Some(Event::SourceGone),
        presence == Presence::Unknown ==> r is None,
        presence == Presence::Present ==> (r is Some <==> (hold_days matches Some(d) && d >= 1
            && state_since.instant() + DAY * d <= now.instant())),
        r is Some && presence == Presence::Present ==> r matches Some(Event::HeldToDeadline(_)),
{
    match presence {
        Presence::Gone => Some(Event::SourceGone),
        Presence::Unknown => None,
        Presence::Present => match hold_days {
            None => None,
            Some(d) => {
                if d == 0 {
                    return None;
                }
                let deadline = state_since.plus_days(d);
                match deadline {
                    // The deadline lies past every instant the library
                    // holds, `now` among them.
                    None => {
                        let now_secs = now.epoch_seconds();
                        assert(now_secs <= LATEST);
                        None
                    },
                    Some(at) => if at.is_at_or_before(&now) {
                        match presence.confirmed() {
                            Some(w) => Some(Event::HeldToDeadline(w)),
                            None => None,
                        }
                    } else {
                        None
                    },
                }
            },
        },
    }
}

/// The platform of a canonical source URL, read from its prefix.
pub open spec fn source_platform(url: Seq<char>) -> Option<Platform> {
    if opens_with(url, "https://www.youtube.com/channel/"@) {
        Some(Platform::Youtube)
    } else if opens_with(url, "https://x.com/i/user/"@) {
        Some(Platform::X)
    } else {
        None
    }
}

/// The platform a source belongs to.
pub fn platform_of_source(url: &NormalizedUrl) -> (r: Option<Platform>)
    ensures
        r == source_platform(url.text()),
{
    let s = text::chars_of(url.as_str());
    let youtube = text::chars_of("https://www.youtube.com/channel/");
    let x = text::chars_of("https://x.com/i/user/");
    if text::chars_open_with(s.as_slice(), youtube.as_slice()) {
        Some(Platform::Youtube)
    } else if text::chars_open_with(s.as_slice(), x.as_slice()) {
        Some(Platform::X)
    } else {
        None
    }
}

/// Whether a source is read this round: enabled, watched now, and on a
/// platform not halted this round.
pub fn visits(source: &Source, now: Timestamp, report: &Report) -> (r: bool)
    ensures
        r <==> source.enabled && source.monitoring.covers_spec(now) && !(source_platform(
            source.url.text(),
        ) matches Some(p) && exists|i: int|
            0 <= i < report.notices@.len() && halts(#[trigger] report.notices@[i], p)),
{
    if !source.enabled || !source.monitoring.covers(now) {
        return false;
    }
    match platform_of_source(&source.url) {
        Some(p) => !report.halted(p),
        None => true,
    }
}

/// Whether an item found at a source becomes a row: not when any exclusion
/// covers its type for that source.
pub fn admits(excludes: &Vec<Exclude>, source_id: SourceId, content_type: ContentType) -> (r: bool)
    ensures
        r <==> forall|i: int|
            0 <= i < excludes@.len() ==> !(#[trigger] excludes@[i]).covers_spec(source_id, content_type),
{
    let mut i: usize = 0;
    while i < excludes.len()
        invariant
            i <= excludes@.len(),
            forall|j: int| 0 <= j < i ==> !(#[trigger] excludes@[j]).covers_spec(source_id, content_type),
        decreases excludes@.len() - i,
    {
        if excludes[i].covers(source_id, content_type) {
            return false;
        }
        i = i + 1;
    }
    true
}

/// The row a found entry becomes at a source.
pub open spec fn discovered_from(source_id: SourceId, f: Found) -> Discovered {
    Discovered {
        source_id,
        url: f.url,
        published_at: f.published_at,
        scheduled_start_at: f.scheduled_start_at,
        content: f.content,
        media: f.media,
    }
}

/// Whether no exclusion covers a type at a source.
pub open spec fn admitted(excludes: Seq<Exclude>, source_id: SourceId, t: ContentType) -> bool {
    forall|i: int| 0 <= i < excludes.len() ==> !(#[trigger] excludes[i]).covers_spec(source_id, t)
}

/// The rows the first `k` found entries add: each entry not already in the
/// ledger, whose type no exclusion covers, and whose URL no earlier entry of
/// this pass has already added, in the order found.
pub open spec fn new_items_upto(
    excludes: Seq<Exclude>,
    source_id: SourceId,
    found: Seq<Found>,
    known: Seq<bool>,
    k: int,
) -> Seq<Discovered>
    decreases k,
{
    if k <= 0 {
        Seq::empty()
    } else {
        let before = new_items_upto(excludes, source_id, found, known, k - 1);
        let f = found[k - 1];
        if !known[k - 1] && admitted(excludes, source_id, f.content.content_type_of()) && !(exists|
            j: int,
        | 0 <= j < before.len() && (#[trigger] before[j]).url.text() == f.url.text()) {
            before.push(discovered_from(source_id, f))
        } else {
            before
        }
    }
}

/// What one read of a source adds to the ledger. `known[i]` says whether
/// the ledger already has the URL of `found[i]` (the URL is the item's
/// unique key); an entry already there, one of an excluded type, or one
/// whose URL this pass has already added makes no row. Rows keep the order
/// the source gave.
pub fn new_items(source: &Source, excludes: &Vec<Exclude>, found: Vec<Found>, known: &Vec<bool>) -> (r: Vec<Discovered>)
    requires
        known@.len() == found@.len(),
    ensures
        r@ == new_items_upto(excludes@, source.id, found@, known@, found@.len() as int),
{
    let ghost whole = found@;
    let n = found.len();
    let mut rest = found;
    let mut r: Vec<Discovered> = Vec::new();
    let mut i: usize = 0;
    while rest.len() > 0
        invariant
            whole.len() == n,
            i + rest@.len() == whole.len(),
            known@.len() == whole.len(),
            rest@ == whole.skip(i as int),
            r@ == new_items_upto(excludes@, source.id, whole, known@, i as int),
        decreases rest@.len(),
    {
        let ghost rest_before = rest@;
        let f = rest.remove(0);
        assert(rest@ =~= whole.skip(i + 1));
        assert(f == whole[i as int]);
        let taken_before = admits(excludes, source.id, f.content_type());
        let mut seen = false;
        let mut j: usize = 0;
        while j < r.len()
            invariant
                j <= r@.len(),
                seen <==> exists|m: int| 0 <= m < j && (#[trigger] r@[m]).url.text() == f.url.text(),
            decreases r@.len() - j,
        {
            if text::same(r[j].url.as_str(), f.url.as_str()) {
                seen = true;
            }
            j = j + 1;
        }
        let ghost before = r@;
        if !known[i] && taken_before && !seen {
            let source_id = source.id;
            r.push(Discovered {
                source_id,
                url: f.url,
                published_at: f.published_at,
                scheduled_start_at: f.scheduled_start_at,
                content: f.content,
                media: f.media,
            });
        }
        i = i + 1;
    }
    r
}

/// Where a read of a source starts: nothing when the source is not read at
/// `now` (disabled, or outside its watching period), and otherwise its
/// creation time, since a source is watched from the moment it was added.
pub fn discovery_since(source: &Source, now: Timestamp) -> (r: Option<Timestamp>)
    ensures
        r == (if source.enabled && source.monitoring.covers_spec(now) {
            Some(source.created_at)
        } else {
            None
        }),
{
    if source.watched_at(now) {
        Some(source.created_at)
    } else {
        None
    }
}

/// Whether the rows a pass adds include one at a URL.
pub open spec fn adds_url(added: Seq<Discovered>, url: Seq<char>) -> bool {
    exists|j: int| 0 <= j < added.len() && (#[trigger] added[j]).url.text() == url
}

/// What a shorter pass adds is where a longer pass over the same entries
/// starts.
proof fn lemma_new_items_prefix(
    excludes: Seq<Exclude>,
    source_id: SourceId,
    found: Seq<Found>,
    known: Seq<bool>,
    k1: int,
    k2: int,
)
    requires
        0 <= k1 <= k2,
    ensures
        new_items_upto(excludes, source_id, found, known, k1).len() <= new_items_upto(
            excludes,
            source_id,
            found,
            known,
            k2,
        ).len(),
        forall|j: int|
            0 <= j < new_items_upto(excludes, source_id, found, known, k1).len() ==> #[trigger] new_items_upto(
                excludes,
                source_id,
                found,
                known,
                k2,
            )[j] == new_items_upto(excludes, source_id, found, known, k1)[j],
    decreases k2 - k1,
{
    if k1 < k2 {
        lemma_new_items_prefix(excludes, source_id, found, known, k1, k2 - 1);
    }
}

/// After a pass, every entry it saw that was new to the ledger and of an
/// admitted type has its URL among the rows the pass added.
proof fn lemma_new_items_cover(
    excludes: Seq<Exclude>,
    source_id: SourceId,
    found: Seq<Found>,
    known: Seq<bool>,
    k: int,
)
    requires
        0 <= k <= found.len(),
        known.len() == found.len(),
    ensures
        forall|i: int|
            0 <= i < k && !known[i] && admitted(excludes, source_id, found[i].content.content_type_of())
                ==> adds_url(
                new_items_upto(excludes, source_id, found, known, k),
                #[trigger] found[i].url.text(),
            ),
    decreases k,
{
    if k > 0 {
        lemma_new_items_cover(excludes, source_id, found, known, k - 1);
        lemma_new_items_prefix(excludes, source_id, found, known, k - 1, k);
        let before = new_items_upto(excludes, source_id, found, known, k - 1);
        let after = new_items_upto(excludes, source_id, found, known, k);
        assert forall|i: int|
            0 <= i < k && !known[i] && admitted(
                excludes,
                source_id,
                found[i].content.content_type_of(),
            ) implies adds_url(after, #[trigger] found[i].url.text()) by {
            if i < k - 1 {
                let j = choose|j: int|
                    0 <= j < before.len() && (#[trigger] before[j]).url.text() == found[i].url.text();
                assert(after[j] == before[j]);
            } else if after.len() > before.len() {
                assert(after[before.len() as int].url.text() == found[i].url.text());
            } else {
                let j = choose|j: int|
                    0 <= j < before.len() && (#[trigger] before[j]).url.text() == found[i].url.text();
                assert(after[j] == before[j]);
            }
        }
    }
}

/// A pass over entries that the ledger already holds, or whose type is
/// excluded, adds nothing.
proof fn lemma_nothing_new(
    excludes: Seq<Exclude>,
    source_id: SourceId,
    found: Seq<Found>,
    known: Seq<bool>,
    k: int,
)
    requires
        0 <= k <= found.len(),
        known.len() == found.len(),
        forall|i: int|
            0 <= i < found.len() && !known[i] ==> !admitted(
                excludes,
                source_id,
                #[trigger] found[i].content.content_type_of(),
            ),
    ensures
        new_items_upto(excludes, source_id, found, known, k) == Seq::<Discovered>::empty(),
    decreases k,
{
    if k > 0 {
        lemma_nothing_new(excludes, source_id, found, known, k - 1);
        let _ = found[k - 1].content.content_type_of();
    }
}

/// Reading a source twice over the same entries adds nothing the second
/// time: once the first pass has written its rows, the ledger holds the URL
/// of every entry that was new and of an admitted type, and an entry the
/// ledger holds makes no row. `known` is what the ledger held before the
/// first pass, `known_again` what it holds before the second; the ledger
/// only grows, and it now holds every URL the first pass added.
pub proof fn lemma_second_sweep_adds_nothing(
    excludes: Seq<Exclude>,
    source_id: SourceId,
    found: Seq<Found>,
    known: Seq<bool>,
    known_again: Seq<bool>,
)
    requires
        known.len() == found.len(),
        known_again.len() == found.len(),
        forall|i: int|
            0 <= i < found.len() && (known[i] || adds_url(
                new_items_upto(excludes, source_id, found, known, found.len() as int),
                found[i].url.text(),
            )) ==> #[trigger] known_again[i],
    ensures
        new_items_upto(excludes, source_id, found, known_again, found.len() as int)
            == Seq::<Discovered>::empty(),
{
    lemma_new_items_cover(excludes, source_id, found, known, found.len() as int);
    assert forall|i: int|
        0 <= i < found.len() && !known_again[i] implies !admitted(
        excludes,
        source_id,
        #[trigger] found[i].content.content_type_of(),
    ) by {
        let _ = found[i].url.text();
    }
    lemma_nothing_new(excludes, source_id, found, known_again, found.len() as int);
}

/// The free-space check before an acquisition: on a short, the notice that
/// stops this round's acquisitions; nothing otherwise.
pub fn room_check(room: Room, report: &mut Report) -> (r: bool)
    ensures
        r <==> room == Room::Enough,
        r ==> final(report).notices@ == old(report).notices@,
        !r ==> final(report).notices@ == old(report).notices@.push(Notice::NoRoom(room)),
        final(report).discovered == old(report).discovered,
        final(report).advanced == old(report).advanced,
        final(report).failed == old(report).failed,
        final(report).kept == old(report).kept,
        final(report).discarded == old(report).discarded,
{
    if room.is_enough() {
        true
    } else {
        report.notices.push(Notice::NoRoom(room));
        false
    }
}

/// A failure that is not the item's own — a tool that will not start,
/// cookies that will not work, a refusal, a tool that changed — never moves
/// the item and never counts against it. Only a passing failure counts, and
/// only an item the source lost is given up at once.
pub proof fn lemma_only_the_items_own_failures_move_it(error: AdapterError)
    ensures
        (error is Launch || error is Unauthenticated || error is Rejected || error is Parse)
            ==> (handling_of(error) == Handling::Halt || handling_of(error) == Handling::Notify),
        handling_of(error) == Handling::Retry <==> error is Transient,
        handling_of(error) == Handling::Abandon <==> error is Unavailable,
{
}

/// Absorbing another round adds what it moved to what this one moved.
pub proof fn lemma_absorb_adds_moved(before: Report, other: Report, after: Report)
    requires
        after.discovered == before.discovered + other.discovered,
        after.advanced == before.advanced + other.advanced,
        after.failed == before.failed + other.failed,
        after.kept == before.kept + other.kept,
        after.discarded == before.discarded + other.discarded,
    ensures
        after.moved_spec() == before.moved_spec() + other.moved_spec(),
{
}

/// Once a platform's problem is noted, the platform counts as halted for
/// the rest of the round.
pub proof fn lemma_noted_halt_halts(after: Report, platform: Platform)
    requires
        after.notices@.len() > 0,
        halts(after.notices@.last(), platform),
    ensures
        exists|i: int| 0 <= i < after.notices@.len() && halts(#[trigger] after.notices@[i], platform),
{
    assert(halts(after.notices@[after.notices@.len() - 1], platform));
}

} // verus!
