//! One pass over a queue of items, as a machine that a runner drives.
//!
//! The runner reads the ledger, runs the tools, measures the disk and
//! removes files; the machine decides, from what the runner saw, what it
//! does next and what the round's report records. A failure of the ledger
//! or of the files is not among what the machine sees: the runner ends the
//! round with it.

use vstd::prelude::*;

use crate::adapter::AdapterError;
use crate::content::Platform;
use crate::disk::Room;
use crate::engine::{gives_up, halts, handling_of, liveness_verdict, Handling, Limits, Notice, Report};
use crate::liveness::Presence;
use crate::state::Event;
use crate::timestamp::{Timestamp, DAY};

verus! {

/// Where a pass over the acquisition or the transcription queue stands.
#[derive(Debug, Clone, Copy, PartialEq, Eq, Structural)]
pub enum Pass {
    /// Waiting for the next item.
    Ready,
    /// Waiting for the free space, measured before an item of a platform
    /// is acquired.
    Measuring(Platform),
    /// Waiting for the stage to end on an item of a platform.
    Running(Platform),
    /// Waiting for a failed attempt to be written against the item.
    Counting,
    /// Waiting for the item to be given up in the ledger.
    GivingUp,
    /// Space ran short: nothing more starts this round.
    Closed,
}

/// What the runner saw.
#[derive(Debug)]
pub enum Seen {
    /// The next item of the queue, of a platform.
    Queued(Platform),
    /// The free space measured.
    Measured(Room),
    /// The stage carried the item through.
    Done,
    /// The stage stopped on a tool's failure.
    ToolFailed(AdapterError),
    /// The item moved under the stage, or was in no state for it: it is
    /// read again next round.
    Moved,
    /// A failed attempt was written: the item's failed attempts so far, or
    /// nothing when the item had moved and nothing was written.
    Counted(Option<u32>),
    /// The give-up was written, or not, when the item had moved.
    GaveUp(bool),
}

/// What the runner does next.
#[derive(Debug, Clone, Copy, PartialEq, Eq, Structural)]
pub enum Next {
    /// Take the next item of the queue.
    NextItem,
    /// Measure the free space.
    MeasureRoom,
    /// Run the stage on the item.
    RunStage,
    /// Write a failed attempt against the item.
    CountFailure,
    /// Write that the item's attempts ran out.
    GiveUp,
    /// Start nothing more this round.
    Stop,
}

/// Whether what the runner saw is what the pass waits for. Once closed,
/// the pass takes anything and does nothing.
pub open spec fn fits(pass: Pass, seen: Seen) -> bool {
    match pass {
        Pass::Ready => seen is Queued,
        Pass::Measuring(_) => seen is Measured,
        Pass::Running(_) => seen is Done || seen is ToolFailed || seen is Moved,
        Pass::Counting => seen is Counted,
        Pass::GivingUp => seen is GaveUp,
        Pass::Closed => true,
    }
}

/// Whether a round's notices halt a platform.
pub open spec fn halted_in(notices: Seq<Notice>, platform: Platform) -> bool {
    exists|i: int| 0 <= i < notices.len() && halts(#[trigger] notices[i], platform)
}

/// Whether the runner measured the space short for the item at hand.
pub open spec fn short_of_room(pass: Pass, seen: Seen) -> bool {
    pass is Measuring && seen is Measured && seen->Measured_0 != Room::Enough
}

/// Where the pass goes and what the runner does next. `gated` is the
/// acquisition pass: it leaves halted platforms alone and measures the free
/// space before each item; the transcription pass does neither.
pub open spec fn pass_next(pass: Pass, seen: Seen, gated: bool, limits: Limits, notices: Seq<Notice>) -> (
    Pass,
    Next,
) {
    match pass {
        Pass::Closed => (Pass::Closed, Next::Stop),
        Pass::Ready => match seen {
            Seen::Queued(p) => if !gated {
                (Pass::Running(p), Next::RunStage)
            } else if halted_in(notices, p) {
                (Pass::Ready, Next::NextItem)
            } else {
                (Pass::Measuring(p), Next::MeasureRoom)
            },
            _ => (pass, Next::NextItem),
        },
        Pass::Measuring(p) => match seen {
            Seen::Measured(room) => if room == Room::Enough {
                (Pass::Running(p), Next::RunStage)
            } else {
                (Pass::Closed, Next::Stop)
            },
            _ => (pass, Next::NextItem),
        },
        Pass::Running(_) => match seen {
            Seen::ToolFailed(e) => match handling_of(e) {
                Handling::Halt | Handling::Notify => (Pass::Ready, Next::NextItem),
                Handling::Abandon => (Pass::GivingUp, Next::GiveUp),
                Handling::Retry => (Pass::Counting, Next::CountFailure),
            },
            _ => (Pass::Ready, Next::NextItem),
        },
        Pass::Counting => match seen {
            Seen::Counted(Some(n)) => if n > limits.max_retries {
                (Pass::GivingUp, Next::GiveUp)
            } else {
                (Pass::Ready, Next::NextItem)
            },
            _ => (Pass::Ready, Next::NextItem),
        },
        Pass::GivingUp => (Pass::Ready, Next::NextItem),
    }
}

/// One step of a pass: the next place and move, with the report updated —
/// an item carried through counts as advanced, a give-up written counts as
/// failed, a tool's failure is noted as [`Report::note`] notes it, and a
/// short of space is noticed and closes the pass.
pub fn pass_step(pass: Pass, seen: Seen, gated: bool, limits: Limits, report: &mut Report) -> (r: (
    Pass,
    Next,
))
    requires
        fits(pass, seen),
        old(report).advanced < usize::MAX,
        old(report).failed < usize::MAX,
    ensures
        r == pass_next(pass, seen, gated, limits, old(report).notices@),
        final(report).advanced == old(report).advanced + if pass is Running && seen is Done {
            1int
        } else {
            0int
        },
        final(report).failed == old(report).failed + if pass is GivingUp && seen == Seen::GaveUp(
            true,
        ) {
            1int
        } else {
            0int
        },
        final(report).discovered == old(report).discovered,
        final(report).kept == old(report).kept,
        final(report).discarded == old(report).discarded,
        short_of_room(pass, seen) ==> final(report).notices@ == old(report).notices@.push(
            Notice::NoRoom(seen->Measured_0),
        ),
        pass is Running && seen is ToolFailed ==> ({
            let p = pass->Running_0;
            let e = seen->ToolFailed_0;
            &&& handling_of(e) == Handling::Halt ==> (final(report).notices@.drop_last()
                == old(report).notices@ && (final(report).notices@.last() matches Notice::Halted { platform, detail }
                && platform == p && detail@ == e.message_of()))
            &&& handling_of(e) == Handling::Notify ==> (final(report).notices@.drop_last()
                == old(report).notices@ && (final(report).notices@.last() matches Notice::ToolDrifted { detail }
                && detail@ == e.message_of()))
            &&& (handling_of(e) == Handling::Retry || handling_of(e) == Handling::Abandon)
                ==> final(report).notices@ == old(report).notices@
        }),
        !short_of_room(pass, seen) && !(pass is Running && seen is ToolFailed)
            ==> final(report).notices@ == old(report).notices@,
{
    match pass {
        Pass::Closed => (Pass::Closed, Next::Stop),
        Pass::Ready => match seen {
            Seen::Queued(p) => {
                if !gated {
                    (Pass::Running(p), Next::RunStage)
                } else if report.halted(p) {
                    (Pass::Ready, Next::NextItem)
                } else {
                    (Pass::Measuring(p), Next::MeasureRoom)
                }
            },
            _ => (pass, Next::NextItem),
        },
        Pass::Measuring(p) => match seen {
            Seen::Measured(room) => {
                if room.is_enough() {
                    (Pass::Running(p), Next::RunStage)
                } else {
                    report.notices.push(Notice::NoRoom(room));
                    (Pass::Closed, Next::Stop)
                }
            },
            _ => (pass, Next::NextItem),
        },
        Pass::Running(p) => match seen {
            Seen::Done => {
                report.advanced = report.advanced + 1;
                (Pass::Ready, Next::NextItem)
            },
            Seen::ToolFailed(e) => {
                let h = report.note(Some(p), &e);
                match h {
                    Handling::Halt | Handling::Notify => (Pass::Ready, Next::NextItem),
                    Handling::Abandon => (Pass::GivingUp, Next::GiveUp),
                    Handling::Retry => (Pass::Counting, Next::CountFailure),
                }
            },
            _ => (Pass::Ready, Next::NextItem),
        },
        Pass::Counting => match seen {
            Seen::Counted(Some(n)) => {
                if gives_up(n, limits) {
                    (Pass::GivingUp, Next::GiveUp)
                } else {
                    (Pass::Ready, Next::NextItem)
                }
            },
            _ => (Pass::Ready, Next::NextItem),
        },
        Pass::GivingUp => {
            if let Seen::GaveUp(true) = seen {
                report.failed = report.failed + 1;
            }
            (Pass::Ready, Next::NextItem)
        },
    }
}

/// The moves of a pass from a place, one for each thing the runner saw in
/// turn; `notices[i]` are the round's notices when the runner saw
/// `seens[i]`.
pub open spec fn moves(
    pass: Pass,
    seens: Seq<Seen>,
    gated: bool,
    limits: Limits,
    notices: Seq<Seq<Notice>>,
) -> Seq<Next>
    decreases seens.len(),
{
    if seens.len() == 0 {
        Seq::empty()
    } else {
        let (after, next) = pass_next(pass, seens[0], gated, limits, notices[0]);
        seq![next] + moves(after, seens.drop_first(), gated, limits, notices.drop_first())
    }
}

/// A closed pass only stops, whatever it sees.
proof fn lemma_closed_only_stops(seens: Seq<Seen>, gated: bool, limits: Limits, notices: Seq<Seq<Notice>>)
    ensures
        moves(Pass::Closed, seens, gated, limits, notices).len() == seens.len(),
        forall|i: int|
            0 <= i < seens.len() ==> #[trigger] moves(Pass::Closed, seens, gated, limits, notices)[i]
                == Next::Stop,
    decreases seens.len(),
{
    if seens.len() > 0 {
        lemma_closed_only_stops(seens.drop_first(), gated, limits, notices.drop_first());
    }
}

/// Once the free space measures short, nothing more runs in the round:
/// the pass stops there and answers everything after with a stop, so no
/// acquisition starts on a full disk.
pub proof fn lemma_short_of_room_ends_the_round(
    platform: Platform,
    room: Room,
    later: Seq<Seen>,
    gated: bool,
    limits: Limits,
    notices: Seq<Seq<Notice>>,
)
    requires
        room != Room::Enough,
    ensures
        ({
            let run = moves(Pass::Measuring(platform), seq![Seen::Measured(room)] + later, gated, limits, notices);
            &&& run.len() == later.len() + 1
            &&& forall|i: int| 0 <= i < run.len() ==> #[trigger] run[i] == Next::Stop
        }),
{
    let seens = seq![Seen::Measured(room)] + later;
    assert(seens.drop_first() =~= later);
    lemma_closed_only_stops(later, gated, limits, notices.drop_first());
    let run = moves(Pass::Measuring(platform), seens, gated, limits, notices);
    assert forall|i: int| 0 <= i < run.len() implies #[trigger] run[i] == Next::Stop by {
        if i > 0 {
            assert(run[i] == moves(Pass::Closed, later, gated, limits, notices.drop_first())[i - 1]);
        }
    }
}

/// Retries are counted from failed attempts: a passing failure never gives
/// an item up at once, it is written as a failed attempt first, and the
/// count written gives the item up only once it exceeds the retries.
pub proof fn lemma_retries_are_counted(
    platform: Platform,
    error: AdapterError,
    attempts: u32,
    gated: bool,
    limits: Limits,
    notices: Seq<Notice>,
)
    requires
        handling_of(error) == Handling::Retry,
    ensures
        pass_next(Pass::Running(platform), Seen::ToolFailed(error), gated, limits, notices) == (
            Pass::Counting,
            Next::CountFailure,
        ),
        pass_next(Pass::Counting, Seen::Counted(Some(attempts)), gated, limits, notices).1 == (if attempts
            > limits.max_retries {
            Next::GiveUp
        } else {
            Next::NextItem
        }),
{
}

/// Where a liveness pass over the held items stands.
#[derive(Debug, Clone, Copy, PartialEq, Eq, Structural)]
pub enum Watch {
    /// Waiting for the next held item.
    Ready,
    /// Waiting for the source's answer about an item of a platform.
    Probing(Platform),
    /// Waiting for the verdict to be written; whether it discards the item.
    Applying(bool),
    /// Waiting for a discarded item's files to be removed.
    Removing,
}

/// What the runner saw during a liveness pass.
#[derive(Debug)]
pub enum Watched {
    /// The next held item, of a platform.
    Queued(Platform),
    /// The source's answer, with what the verdict needs of the item.
    Probed {
        answer: Result<Presence, AdapterError>,
        hold_days: Option<u32>,
        state_since: Timestamp,
        now: Timestamp,
    },
    /// The verdict was written, or not, when the item had moved.
    Applied(bool),
    /// The discarded item's files are gone.
    Removed,
}

/// What the runner does next during a liveness pass.
#[derive(Debug)]
pub enum WatchNext {
    /// Take the next held item.
    NextItem,
    /// Ask the source whether it still has the item.
    Probe,
    /// Write this event against the item.
    Apply(Event),
    /// Remove the item's files.
    RemoveFiles,
}

/// Whether what the runner saw is what the liveness pass waits for.
pub open spec fn watch_fits(watch: Watch, seen: Watched) -> bool {
    match watch {
        Watch::Ready => seen is Queued,
        Watch::Probing(_) => seen is Probed,
        Watch::Applying(_) => seen is Applied,
        Watch::Removing => seen is Removed,
    }
}

/// What a source's answer says of an item: a failure proves gone only when
/// the source certainly lost it.
pub open spec fn observed(answer: Result<Presence, AdapterError>) -> Presence {
    match answer {
        Ok(p) => p,
        Err(e) => e.presence_of(),
    }
}

/// One step of a liveness pass. A halted platform's items are passed over;
/// a failed probe is noted as [`Report::note`] notes it; the verdict is
/// [`crate::engine::liveness_verdict`]'s; a written verdict that keeps the
/// item counts as kept, and one that discards it has the files removed
/// only after it is written, then counts as discarded.
pub fn watch_step(watch: Watch, seen: Watched, report: &mut Report) -> (r: (Watch, WatchNext))
    requires
        watch_fits(watch, seen),
        old(report).kept < usize::MAX,
        old(report).discarded < usize::MAX,
    ensures
        r.1 is RemoveFiles <==> (watch == Watch::Applying(true) && seen == Watched::Applied(true)),
        r.1 is RemoveFiles ==> r.0 == Watch::Removing,
        watch is Ready ==> (if halted_in(old(report).notices@, seen->Queued_0) {
            r.0 == Watch::Ready && r.1 is NextItem
        } else {
            r.0 == Watch::Probing(seen->Queued_0) && r.1 is Probe
        }),
        watch is Probing && seen is Probed ==> match observed(seen->answer) {
            Presence::Gone => r.0 == Watch::Applying(false) && r.1 == WatchNext::Apply(
                Event::SourceGone,
            ),
            Presence::Unknown => r.0 == Watch::Ready && r.1 is NextItem,
            Presence::Present => if seen->hold_days matches Some(d) && d >= 1
                && seen->state_since.instant() + DAY * d <= seen->now.instant() {
                r.0 == Watch::Applying(true) && r.1 matches WatchNext::Apply(Event::HeldToDeadline(_))
            } else {
                r.0 == Watch::Ready && r.1 is NextItem
            },
        },
        watch is Applying && seen == Watched::Applied(false) ==> r.0 == Watch::Ready
            && r.1 is NextItem,
        watch == Watch::Applying(false) && seen == Watched::Applied(true) ==> r.0 == Watch::Ready
            && r.1 is NextItem,
        watch is Removing ==> r.0 == Watch::Ready && r.1 is NextItem,
        final(report).kept == old(report).kept + if watch == Watch::Applying(false) && seen
            == Watched::Applied(true) {
            1int
        } else {
            0int
        },
        final(report).discarded == old(report).discarded + if watch is Removing {
            1int
        } else {
            0int
        },
        final(report).discovered == old(report).discovered,
        final(report).advanced == old(report).advanced,
        final(report).failed == old(report).failed,
        !(watch is Probing && seen is Probed && seen->answer is Err) ==> final(report).notices@
            == old(report).notices@,
        watch is Probing && seen is Probed && seen->answer is Err ==> ({
            let p = watch->Probing_0;
            let e = seen->answer->Err_0;
            &&& handling_of(e) == Handling::Halt ==> (final(report).notices@.drop_last()
                == old(report).notices@ && (final(report).notices@.last() matches Notice::Halted { platform, detail }
                && platform == p && detail@ == e.message_of()))
            &&& handling_of(e) == Handling::Notify ==> (final(report).notices@.drop_last()
                == old(report).notices@ && (final(report).notices@.last() matches Notice::ToolDrifted { detail }
                && detail@ == e.message_of()))
            &&& (handling_of(e) == Handling::Retry || handling_of(e) == Handling::Abandon)
                ==> final(report).notices@ == old(report).notices@
        }),
{
    match watch {
        Watch::Ready => match seen {
            Watched::Queued(p) => {
                if report.halted(p) {
                    (Watch::Ready, WatchNext::NextItem)
                } else {
                    (Watch::Probing(p), WatchNext::Probe)
                }
            },
            _ => (Watch::Ready, WatchNext::NextItem),
        },
        Watch::Probing(p) => match seen {
            Watched::Probed { answer, hold_days, state_since, now } => {
                let presence = match answer {
                    Ok(presence) => presence,
                    Err(e) => {
                        report.note(Some(p), &e);
                        e.presence()
                    },
                };
                match liveness_verdict(presence, hold_days, state_since, now) {
                    Some(event) => {
                        let discard = match &event {
                            Event::HeldToDeadline(_) => true,
                            _ => false,
                        };
                        (Watch::Applying(discard), WatchNext::Apply(event))
                    },
                    None => (Watch::Ready, WatchNext::NextItem),
                }
            },
            _ => (Watch::Ready, WatchNext::NextItem),
        },
        Watch::Applying(discard) => match seen {
            Watched::Applied(written) => {
                if !written {
                    (Watch::Ready, WatchNext::NextItem)
                } else if discard {
                    (Watch::Removing, WatchNext::RemoveFiles)
                } else {
                    report.kept = report.kept + 1;
                    (Watch::Ready, WatchNext::NextItem)
                }
            },
            _ => (Watch::Ready, WatchNext::NextItem),
        },
        Watch::Removing => {
            report.discarded = report.discarded + 1;
            (Watch::Ready, WatchNext::NextItem)
        },
    }
}

/// Only a passing failure is counted against an item: a tool that would not
/// start, cookies that would not work or a refusal halts the platform, and
/// output that would not read only tells a person; in each case the item
/// does not move, no failed attempt is written, and the pass takes the next
/// item. An item the source lost is given up at once, without counting.
pub proof fn lemma_only_passing_failures_are_counted(
    platform: Platform,
    error: AdapterError,
    gated: bool,
    limits: Limits,
    notices: Seq<Notice>,
)
    ensures
        (error is Launch || error is Unauthenticated || error is Rejected || error is Parse)
            ==> pass_next(Pass::Running(platform), Seen::ToolFailed(error), gated, limits, notices)
            == (Pass::Ready, Next::NextItem),
        error is Transient ==> pass_next(
            Pass::Running(platform),
            Seen::ToolFailed(error),
            gated,
            limits,
            notices,
        ) == (Pass::Counting, Next::CountFailure),
        error is Unavailable ==> pass_next(
            Pass::Running(platform),
            Seen::ToolFailed(error),
            gated,
            limits,
            notices,
        ) == (Pass::GivingUp, Next::GiveUp),
        pass_next(Pass::Running(platform), Seen::ToolFailed(error), gated, limits, notices).1
            == Next::CountFailure <==> error is Transient,
{
}

/// A failed probe keeps a held item for good only when the source certainly
/// lost it; any other failure leaves the item held for the next check.
pub proof fn lemma_a_failed_probe_keeps_only_a_lost_item(error: AdapterError)
    ensures
        observed(Err(error)) == Presence::Gone <==> error is Unavailable,
        !(error is Unavailable) ==> observed(Err(error)) == Presence::Unknown,
{
}

} // verus!
