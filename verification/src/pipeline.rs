//! Carrying a found item, one stage at a time, to where it can be handed over.
//!
//! The state machine decides where an event leads; this module decides which
//! stage an item may enter, whether what was acquired needs transcribing, which
//! fragments still lack a transcript, and what a failed stage leads to. The
//! calls out to the tools and the ledger stand around these decisions.

use vstd::prelude::*;

use crate::adapter::AdapterError;
use crate::asset::{Asset, AssetKind};
use crate::item::{Item, ItemId};
use crate::source::Source;
use crate::state::{holds_for, Event, HoldTooFar, State, StateName, TranscriptNeed};
use crate::timestamp::Timestamp;

verus! {

/// The two stages an item passes through.
#[derive(Debug, Clone, Copy, PartialEq, Eq, Structural)]
pub enum Stage {
    Acquisition,
    Transcription,
}

/// An item whose state has no door into a stage.
#[derive(Debug, Clone, Copy, PartialEq, Eq)]
pub struct NotAtThisStep {
    pub id: ItemId,
    pub state: StateName,
    pub stage: Stage,
}

/// How the acquisition stage is entered.
#[derive(Debug, Clone, Copy, PartialEq, Eq, Structural)]
pub enum Entry {
    /// A waiting item: the start is recorded first.
    Start,
    /// An item left acquiring by an earlier round: no event is stacked on it,
    /// the download simply runs again.
    Resume,
}

/// Why a stage did not carry an item through.
#[derive(Debug)]
pub enum PipelineError {
    /// The ledger could not be read or written.
    Store { detail: String },
    /// A tool failed.
    Adapter(AdapterError),
    /// No such item in the ledger.
    NoSuchItem(ItemId),
    /// The state moved since it was read; read again and retry.
    Superseded,
    /// The item is in no state to enter the stage.
    NotAtThisStep(NotAtThisStep),
    /// The files at hand could not be handled.
    Io { path: String, detail: String },
}

/// What the round does with a failed stage.
#[derive(Debug, Clone, Copy, PartialEq, Eq, Structural)]
pub enum FailureRoute {
    /// Someone moved the item in between; the next round reads it again.
    Reread,
    /// A tool failed: noted, and counted against the item as the failure says.
    Note,
    /// The ledger or the files failed: not swallowed.
    Raise,
}

/// Media with sound in it; images alone cannot be transcribed.
pub open spec fn audible(kind: AssetKind) -> bool {
    kind == AssetKind::Video || kind == AssetKind::Audio
}

/// Whether any of the files has sound in it.
pub open spec fn any_audible(assets: Seq<Asset>) -> bool {
    exists|i: int| 0 <= i < assets.len() && audible(#[trigger] assets[i].kind_of())
}

/// Whether a transcript with the given ordinal is among the files.
pub open spec fn has_transcript(assets: Seq<Asset>, ordinal: u32) -> bool {
    exists|j: int|
        0 <= j < assets.len() && (#[trigger] assets[j]).kind_of() == AssetKind::Transcript
            && assets[j].ordinal_of() == ordinal
}

/// A fragment still waiting for its transcript.
pub open spec fn awaits_transcript(all: Seq<Asset>, a: Asset) -> bool {
    audible(a.kind_of()) && !has_transcript(all, a.ordinal_of())
}

/// The fragments of `rest` that still wait for a transcript among `all`, in order.
pub open spec fn awaiting(all: Seq<Asset>, rest: Seq<Asset>) -> Seq<Asset>
    decreases rest.len(),
{
    if rest.len() == 0 {
        Seq::empty()
    } else {
        let before = awaiting(all, rest.drop_last());
        if awaits_transcript(all, rest.last()) {
            before.push(rest.last())
        } else {
            before
        }
    }
}

/// Whether the file has sound in it.
pub fn is_audible(asset: &Asset) -> (r: bool)
    ensures
        r == audible(asset.kind_of()),
{
    match asset.kind() {
        AssetKind::Video | AssetKind::Audio => true,
        AssetKind::Image | AssetKind::Transcript => false,
    }
}

/// Whether what was acquired is to be transcribed: exactly when some file
/// has sound in it.
pub fn transcript_need(assets: &Vec<Asset>) -> (r: TranscriptNeed)
    ensures
        r == TranscriptNeed::Needed <==> any_audible(assets@),
{
    let mut i: usize = 0;
    while i < assets.len()
        invariant
            i <= assets.len(),
            forall|k: int| 0 <= k < i ==> !audible(#[trigger] assets@[k].kind_of()),
        decreases assets.len() - i,
    {
        if is_audible(&assets[i]) {
            return TranscriptNeed::Needed;
        }
        i = i + 1;
    }
    TranscriptNeed::NotNeeded
}

/// The event that ends an acquisition: whether what was brought home needs
/// transcribing, and the hold read from the source at the moment it ended.
/// A deadline outside the calendar is an error and moves nothing.
pub fn acquired_event(assets: &Vec<Asset>, source: &Source, finished: Timestamp) -> (r: Result<
    Event,
    HoldTooFar,
>)
    ensures
        match r {
            Ok(Event::Acquired { transcript, hold }) => (transcript == TranscriptNeed::Needed
                <==> any_audible(assets@)) && holds_for(
                source.hold_days,
                finished,
                Ok::<_, HoldTooFar>(hold),
            ),
            Ok(_) => false,
            Err(e) => holds_for(source.hold_days, finished, Err::<_, HoldTooFar>(e)),
        },
{
    let transcript = transcript_need(assets);
    match source.hold_from(finished) {
        Ok(hold) => Ok(Event::Acquired { transcript, hold }),
        Err(e) => Err(e),
    }
}

/// How an item enters the acquisition stage: a waiting item starts, an item
/// left acquiring resumes, any other is turned away.
pub fn acquisition_entry(item: &Item) -> (r: Result<Entry, NotAtThisStep>)
    ensures
        item.state is Waiting ==> r == Ok::<Entry, NotAtThisStep>(Entry::Start),
        item.state is Acquiring ==> r == Ok::<Entry, NotAtThisStep>(Entry::Resume),
        !(item.state is Waiting || item.state is Acquiring) ==> r == Err::<Entry, NotAtThisStep>(
            NotAtThisStep { id: item.id, state: item.state.name_of(), stage: Stage::Acquisition },
        ),
{
    match item.state {
        State::Waiting => Ok(Entry::Start),
        State::Acquiring => Ok(Entry::Resume),
        _ => Err(NotAtThisStep { id: item.id, state: item.state.name(), stage: Stage::Acquisition }),
    }
}

/// Whether an item may enter the transcription stage: only a transcribing one.
pub fn transcription_entry(item: &Item) -> (r: Result<(), NotAtThisStep>)
    ensures
        r is Ok <==> item.state is Transcribing,
        !(item.state is Transcribing) ==> r == Err::<(), NotAtThisStep>(
            NotAtThisStep { id: item.id, state: item.state.name_of(), stage: Stage::Transcription },
        ),
{
    match item.state {
        State::Transcribing { .. } => Ok(()),
        _ => Err(NotAtThisStep { id: item.id, state: item.state.name(), stage: Stage::Transcription }),
    }
}

/// Whether a transcript with the given ordinal is among the files.
fn transcript_present(assets: &Vec<Asset>, ordinal: u32) -> (r: bool)
    ensures
        r == has_transcript(assets@, ordinal),
{
    let mut j: usize = 0;
    while j < assets.len()
        invariant
            j <= assets.len(),
            forall|k: int|
                0 <= k < j ==> !((#[trigger] assets@[k]).kind_of() == AssetKind::Transcript
                    && assets@[k].ordinal_of() == ordinal),
        decreases assets.len() - j,
    {
        if assets[j].kind() == AssetKind::Transcript && assets[j].ordinal() == ordinal {
            return true;
        }
        j = j + 1;
    }
    false
}

/// The fragments still to transcribe, in the order found: each file with
/// sound in it whose ordinal has no transcript yet. A round that fell over
/// half way goes on from where it stopped rather than starting again.
pub fn pending_transcripts(assets: &Vec<Asset>) -> (r: Vec<Asset>)
    ensures
        r@ == awaiting(assets@, assets@),
{
    let mut r: Vec<Asset> = Vec::new();
    let mut i: usize = 0;
    while i < assets.len()
        invariant
            i <= assets.len(),
            r@ == awaiting(assets@, assets@.take(i as int)),
        decreases assets.len() - i,
    {
        proof {
            assert(assets@.take(i as int + 1).drop_last() =~= assets@.take(i as int));
            assert(assets@.take(i as int + 1).last() == assets@[i as int]);
        }
        if is_audible(&assets[i]) && !transcript_present(assets, assets[i].ordinal()) {
            r.push(assets[i].clone());
        }
        i = i + 1;
    }
    proof {
        assert(assets@.take(assets@.len() as int) =~= assets@);
    }
    r
}

/// What the round does with a failed stage: a superseded read or an item in
/// no state for the stage is read again next round, a tool's failure is
/// noted, and anything else is raised.
pub fn failure_route(error: &PipelineError) -> (r: FailureRoute)
    ensures
        (*error is Superseded || *error is NotAtThisStep) <==> r == FailureRoute::Reread,
        *error is Adapter <==> r == FailureRoute::Note,
        (*error is Store || *error is NoSuchItem || *error is Io) <==> r == FailureRoute::Raise,
{
    match error {
        PipelineError::Superseded | PipelineError::NotAtThisStep(_) => FailureRoute::Reread,
        PipelineError::Adapter(_) => FailureRoute::Note,
        PipelineError::Store { .. } | PipelineError::NoSuchItem(_) | PipelineError::Io { .. } => {
            FailureRoute::Raise
        },
    }
}

/// Every fragment handed on waits for its transcript, and every fragment
/// that waits is handed on.
pub proof fn lemma_pending_are_exactly_the_untranscribed(all: Seq<Asset>, rest: Seq<Asset>)
    ensures
        forall|k: int|
            0 <= k < awaiting(all, rest).len() ==> awaits_transcript(all, #[trigger] awaiting(all, rest)[k]),
        forall|k: int|
            0 <= k < rest.len() && awaits_transcript(all, #[trigger] rest[k]) ==> awaiting(all, rest).contains(rest[k]),
    decreases rest.len(),
{
    if rest.len() > 0 {
        lemma_pending_are_exactly_the_untranscribed(all, rest.drop_last());
        let before = awaiting(all, rest.drop_last());
        assert forall|k: int|
            0 <= k < rest.len() && awaits_transcript(all, #[trigger] rest[k]) implies awaiting(all, rest).contains(rest[k]) by {
            if k < rest.len() - 1 {
                assert(rest.drop_last()[k] == rest[k]);
                let w = choose|w: int| 0 <= w < before.len() && before[w] == rest[k];
                if awaits_transcript(all, rest.last()) {
                    assert(before.push(rest.last())[w] == rest[k]);
                }
            } else {
                let n = before.len();
                assert(before.push(rest.last())[n as int] == rest.last());
            }
        }
    }
}

} // verus!
