//! The states of an item and the transitions between them.
//!
//! [`next`] is the state diagram: a total function from a state and an event
//! to the next state, or to the refusal of that event in that state. Folding
//! an item's log of events through it gives the item's state.

use vstd::prelude::*;

use crate::liveness::PresenceConfirmed;
use crate::text;
use crate::timestamp::{Timestamp, LATEST};

verus! {

/// How long an acquired item is held. Fixed once, when acquisition ends.
#[derive(Debug, Clone, Copy, PartialEq, Eq)]
pub enum Hold {
    /// Hold until this instant; discard if the source still has it then.
    Until(Timestamp),
    /// No deadline: never discard, go straight to `kept`.
    NoDeadline,
}

/// Where the released item went. Kept as given, not interpreted.
#[derive(Debug, PartialEq, Eq)]
pub struct ReleaseReference(String);

/// Why one attempt failed. Kept as given, not interpreted.
#[derive(Debug, PartialEq, Eq)]
pub struct FailureReason(String);

/// The state of an item. Values that only make sense in one state travel in it.
#[derive(Debug, PartialEq, Eq)]
pub enum State {
    /// Found, not yet acquired.
    Waiting,
    /// Being acquired.
    Acquiring,
    /// Being transcribed; the hold decides where it goes afterwards.
    Transcribing { hold: Hold },
    /// Held until the deadline while the source is checked.
    Holding { until: Timestamp },
    /// Kept for good, waiting to be handed over. Not terminal.
    Kept,
    /// Discarded: the source had it until the deadline.
    Discarded,
    /// Handed over to the outside.
    Released { reference: Option<ReleaseReference> },
    /// Deleted by hand.
    Deleted,
    /// Could not be acquired.
    Error,
}

/// The name of a state, without what it carries.
#[derive(Debug, Clone, Copy, PartialEq, Eq, Structural, Hash, PartialOrd, Ord)]
pub enum StateName {
    Waiting,
    Acquiring,
    Transcribing,
    Holding,
    Kept,
    Discarded,
    Released,
    Deleted,
    Error,
}

/// A value that names no state escrow knows.
#[derive(Debug, Clone, PartialEq, Eq)]
pub struct UnknownState(pub String);

/// Whether there is media to acquire. A text-only post has none.
#[derive(Debug, Clone, Copy, PartialEq, Eq, Structural)]
pub enum MediaPresence {
    Present,
    Absent,
}

/// Whether the acquired media is to be transcribed.
#[derive(Debug, Clone, Copy, PartialEq, Eq, Structural)]
pub enum TranscriptNeed {
    Needed,
    NotNeeded,
}

/// What moves a state. The birth of an item is not among them: it makes a
/// state rather than moving one.
#[derive(Debug, PartialEq, Eq)]
pub enum Event {
    /// Acquisition began.
    AcquisitionStarted,
    /// Acquisition ended; the only event that carries the hold.
    Acquired { transcript: TranscriptNeed, hold: Hold },
    /// Transcription ended.
    Transcribed,
    /// The source lost the held item.
    SourceGone,
    /// The source was seen holding the item. Moves nothing.
    PresenceConfirmed(PresenceConfirmed),
    /// The source held the item until the deadline.
    HeldToDeadline(PresenceConfirmed),
    /// The outside took the kept item.
    Released { reference: Option<ReleaseReference> },
    /// Deleted by hand.
    Deleted,
    /// One attempt failed. Moves nothing; the count of these is the retry count.
    AttemptFailed { reason: FailureReason },
    /// The attempts ran out.
    RetriesExhausted,
    /// A person asked for the item again.
    ReacquisitionRequested,
}

/// The kinds of entry in an item's log: one more than [`Event`], for the birth.
#[derive(Debug, Clone, Copy, PartialEq, Eq, Structural, Hash, PartialOrd, Ord)]
pub enum EventKind {
    Discovered,
    AcquisitionStarted,
    Acquired,
    Transcribed,
    SourceGone,
    PresenceConfirmed,
    HeldToDeadline,
    Released,
    Deleted,
    AttemptFailed,
    RetriesExhausted,
    ReacquisitionRequested,
}

/// A value that names no kind of log entry escrow knows.
#[derive(Debug, Clone, PartialEq, Eq)]
pub struct UnknownEventKind(pub String);

/// An event that the state diagram does not allow in the given state.
#[derive(Debug, PartialEq, Eq)]
pub struct IllegalTransition {
    pub from: State,
    pub event: Event,
}

impl Clone for ReleaseReference {
    fn clone(&self) -> (r: ReleaseReference)
        ensures
            r == *self,
    {
        ReleaseReference(self.0.clone())
    }
}

impl Clone for FailureReason {
    fn clone(&self) -> (r: FailureReason)
        ensures
            r == *self,
    {
        FailureReason(self.0.clone())
    }
}

impl ReleaseReference {
    pub closed spec fn text(self) -> Seq<char> {
        self.0@
    }

    pub fn new(reference: String) -> (r: ReleaseReference)
        ensures
            r.text() == reference@,
    {
        ReleaseReference(reference)
    }

    pub fn as_str(&self) -> (r: &str)
        ensures
            r@ == self.text(),
    {
        self.0.as_str()
    }
}

impl FailureReason {
    pub closed spec fn text(self) -> Seq<char> {
        self.0@
    }

    pub fn new(reason: String) -> (r: FailureReason)
        ensures
            r.text() == reason@,
    {
        FailureReason(reason)
    }

    pub fn as_str(&self) -> (r: &str)
        ensures
            r@ == self.text(),
    {
        self.0.as_str()
    }
}

impl Clone for State {
    fn clone(&self) -> (r: State)
        ensures
            r == *self,
    {
        match self {
            State::Waiting => State::Waiting,
            State::Acquiring => State::Acquiring,
            State::Transcribing { hold } => State::Transcribing { hold: *hold },
            State::Holding { until } => State::Holding { until: *until },
            State::Kept => State::Kept,
            State::Discarded => State::Discarded,
            State::Released { reference } => State::Released {
                reference: match reference {
                    Some(r) => Some(r.clone()),
                    None => None,
                },
            },
            State::Deleted => State::Deleted,
            State::Error => State::Error,
        }
    }
}

impl Clone for Event {
    fn clone(&self) -> (r: Event)
        ensures
            r == *self,
    {
        match self {
            Event::AcquisitionStarted => Event::AcquisitionStarted,
            Event::Acquired { transcript, hold } => Event::Acquired {
                transcript: *transcript,
                hold: *hold,
            },
            Event::Transcribed => Event::Transcribed,
            Event::SourceGone => Event::SourceGone,
            Event::PresenceConfirmed(w) => Event::PresenceConfirmed(*w),
            Event::HeldToDeadline(w) => Event::HeldToDeadline(*w),
            Event::Released { reference } => Event::Released {
                reference: match reference {
                    Some(r) => Some(r.clone()),
                    None => None,
                },
            },
            Event::Deleted => Event::Deleted,
            Event::AttemptFailed { reason } => Event::AttemptFailed { reason: reason.clone() },
            Event::RetriesExhausted => Event::RetriesExhausted,
            Event::ReacquisitionRequested => Event::ReacquisitionRequested,
        }
    }
}

impl StateName {
    /// The value of the state in the ledger and in what escrow hands out.
    pub open spec fn name(self) -> Seq<char> {
        match self {
            StateName::Waiting => "waiting"@,
            StateName::Acquiring => "acquiring"@,
            StateName::Transcribing => "transcribing"@,
            StateName::Holding => "holding"@,
            StateName::Kept => "kept"@,
            StateName::Discarded => "discarded"@,
            StateName::Released => "released"@,
            StateName::Deleted => "deleted"@,
            StateName::Error => "error"@,
        }
    }

    /// The live states, from which an item may still be deleted.
    pub open spec fn live(self) -> bool {
        match self {
            StateName::Waiting | StateName::Acquiring | StateName::Transcribing
            | StateName::Holding | StateName::Kept => true,
            _ => false,
        }
    }

    pub open spec fn all() -> Seq<StateName> {
        seq![
            StateName::Waiting,
            StateName::Acquiring,
            StateName::Transcribing,
            StateName::Holding,
            StateName::Kept,
            StateName::Discarded,
            StateName::Released,
            StateName::Deleted,
            StateName::Error,
        ]
    }

    /// Every state name, in the order of the state table.
    pub fn every() -> (r: [StateName; 9])
        ensures
            r@ == Self::all(),
    {
        let r = [
            StateName::Waiting,
            StateName::Acquiring,
            StateName::Transcribing,
            StateName::Holding,
            StateName::Kept,
            StateName::Discarded,
            StateName::Released,
            StateName::Deleted,
            StateName::Error,
        ];
        assert(r@ =~= Self::all());
        r
    }

    /// The value of the state in the ledger and in what escrow hands out.
    pub fn as_str(self) -> (r: &'static str)
        ensures
            r@ == self.name(),
    {
        match self {
            StateName::Waiting => "waiting",
            StateName::Acquiring => "acquiring",
            StateName::Transcribing => "transcribing",
            StateName::Holding => "holding",
            StateName::Kept => "kept",
            StateName::Discarded => "discarded",
            StateName::Released => "released",
            StateName::Deleted => "deleted",
            StateName::Error => "error",
        }
    }

    /// Whether the state is live: an item there may still be deleted.
    pub fn is_live(self) -> (r: bool)
        ensures
            r == self.live(),
    {
        match self {
            StateName::Waiting | StateName::Acquiring | StateName::Transcribing
            | StateName::Holding | StateName::Kept => true,
            StateName::Discarded | StateName::Released | StateName::Deleted | StateName::Error => false,
        }
    }

    /// Whether the state is terminal: only a person moves an item out of it.
    pub fn is_terminal(self) -> (r: bool)
        ensures
            r == !self.live(),
    {
        !self.is_live()
    }

    /// Reads a value of the state table.
    pub fn parse(s: &str) -> (r: Result<StateName, UnknownState>)
        ensures
            r matches Ok(n) ==> n.name() == s@,
            r is Err <==> (forall|n: StateName| #[trigger] n.name() != s@),
            r matches Err(e) ==> e.0@ == s@,
    {
        let all = StateName::every();
        let mut i: usize = 0;
        while i < 9
            invariant
                i <= 9,
                all@ == Self::all(),
                forall|j: int| 0 <= j < i ==> (#[trigger] all@[j]).name() != s@,
            decreases 9 - i,
        {
            if text::same(all[i].as_str(), s) {
                return Ok(all[i]);
            }
            i = i + 1;
        }
        proof {
            assert forall|n: StateName| #[trigger] n.name() != s@ by {
                let j: int = match n {
                    StateName::Waiting => 0,
                    StateName::Acquiring => 1,
                    StateName::Transcribing => 2,
                    StateName::Holding => 3,
                    StateName::Kept => 4,
                    StateName::Discarded => 5,
                    StateName::Released => 6,
                    StateName::Deleted => 7,
                    StateName::Error => 8,
                };
                assert(all@[j] == n);
            }
        }
        Err(UnknownState(s.to_owned()))
    }
}

impl core::str::FromStr for StateName {
    type Err = UnknownState;

    fn from_str(s: &str) -> (r: Result<StateName, UnknownState>)
        ensures
            r matches Ok(n) ==> n.name() == s@,
            r is Err <==> (forall|n: StateName| #[trigger] n.name() != s@),
            r matches Err(e) ==> e.0@ == s@,
    {
        StateName::parse(s)
    }
}

impl State {
    pub open spec fn name_of(self) -> StateName {
        match self {
            State::Waiting => StateName::Waiting,
            State::Acquiring => StateName::Acquiring,
            State::Transcribing { .. } => StateName::Transcribing,
            State::Holding { .. } => StateName::Holding,
            State::Kept => StateName::Kept,
            State::Discarded => StateName::Discarded,
            State::Released { .. } => StateName::Released,
            State::Deleted => StateName::Deleted,
            State::Error => StateName::Error,
        }
    }

    /// The deadline a state carries, if any: the `hold_until` column.
    pub open spec fn deadline_of(self) -> Option<Timestamp> {
        match self {
            State::Transcribing { hold: Hold::Until(until) } => Some(until),
            State::Holding { until } => Some(until),
            _ => None,
        }
    }

    /// The reference a state carries, if any: the `release_reference` column.
    pub open spec fn reference_of(self) -> Option<ReleaseReference> {
        match self {
            State::Released { reference } => reference,
            _ => None,
        }
    }

    /// The name of the state, without what it carries.
    pub fn name(&self) -> (r: StateName)
        ensures
            r == self.name_of(),
    {
        match self {
            State::Waiting => StateName::Waiting,
            State::Acquiring => StateName::Acquiring,
            State::Transcribing { .. } => StateName::Transcribing,
            State::Holding { .. } => StateName::Holding,
            State::Kept => StateName::Kept,
            State::Discarded => StateName::Discarded,
            State::Released { .. } => StateName::Released,
            State::Deleted => StateName::Deleted,
            State::Error => StateName::Error,
        }
    }

    /// The value of the state in the ledger.
    pub fn as_str(&self) -> (r: &'static str)
        ensures
            r@ == self.name_of().name(),
    {
        self.name().as_str()
    }

    /// The deadline the state carries: only `transcribing` with a deadline and `holding`.
    pub fn hold_until(&self) -> (r: Option<Timestamp>)
        ensures
            r == self.deadline_of(),
    {
        match self {
            State::Transcribing { hold: Hold::Until(until) } => Some(*until),
            State::Holding { until } => Some(*until),
            State::Transcribing { hold: Hold::NoDeadline } | State::Waiting | State::Acquiring
            | State::Kept | State::Discarded | State::Released { .. } | State::Deleted
            | State::Error => None,
        }
    }

    /// The reference the state carries: only `released`.
    pub fn release_reference(&self) -> (r: Option<&ReleaseReference>)
        ensures
            match r {
                Some(x) => self.reference_of() == Some(*x),
                None => self.reference_of() is None,
            },
    {
        match self {
            State::Released { reference } => match reference {
                Some(r) => Some(r),
                None => None,
            },
            State::Waiting | State::Acquiring | State::Transcribing { .. } | State::Holding { .. }
            | State::Kept | State::Discarded | State::Deleted | State::Error => None,
        }
    }

    /// The state an item starts in: waiting when there is media to acquire,
    /// kept when there is none.
    pub fn initial(media: MediaPresence) -> (r: State)
        ensures
            media == MediaPresence::Present ==> r == State::Waiting,
            media == MediaPresence::Absent ==> r == State::Kept,
    {
        match media {
            MediaPresence::Present => State::Waiting,
            MediaPresence::Absent => State::Kept,
        }
    }

    pub fn is_live(&self) -> (r: bool)
        ensures
            r == self.name_of().live(),
    {
        self.name().is_live()
    }

    pub fn is_terminal(&self) -> (r: bool)
        ensures
            r == !self.name_of().live(),
    {
        self.name().is_terminal()
    }
}

/// The hold that a number of days gives, counted from the moment
/// acquisition ended: none without days; with days, a deadline that many
/// whole days later in the same offset, or an error when that falls outside
/// the calendar.
pub open spec fn holds_for(days: Option<u32>, acquired_at: Timestamp, r: Result<Hold, HoldTooFar>) -> bool {
    &&& days is None ==> r == Ok::<Hold, HoldTooFar>(Hold::NoDeadline)
    &&& days matches Some(d) ==> match r {
        Ok(Hold::Until(t)) => t.instant() == acquired_at.instant() + 86400 * d
            && t.offset_secs() == acquired_at.offset_secs() && t.is_leap() == (acquired_at.is_leap()
            && d == 0),
        Ok(Hold::NoDeadline) => false,
        Err(e) => e.days == d,
    }
    &&& days matches Some(d) ==> (r is Ok <==> acquired_at.instant() + 86400 * d <= LATEST)
}

impl Hold {
    /// The hold for a number of days counted from the moment acquisition
    /// ended: none without days, and an error when the deadline falls outside
    /// the calendar.
    pub fn from_days(days: Option<u32>, acquired_at: Timestamp) -> (r: Result<Hold, HoldTooFar>)
        ensures
            holds_for(days, acquired_at, r),
    {
        match days {
            None => Ok(Hold::NoDeadline),
            Some(d) => match acquired_at.plus_days(d) {
                Some(t) => Ok(Hold::Until(t)),
                None => Err(HoldTooFar { days: d }),
            },
        }
    }
}

/// The deadline would fall outside the calendar.
#[derive(Debug, Clone, Copy, PartialEq, Eq)]
pub struct HoldTooFar {
    pub days: u32,
}

impl EventKind {
    pub open spec fn name(self) -> Seq<char> {
        match self {
            EventKind::Discovered => "discovered"@,
            EventKind::AcquisitionStarted => "acquisition_started"@,
            EventKind::Acquired => "acquired"@,
            EventKind::Transcribed => "transcribed"@,
            EventKind::SourceGone => "source_gone"@,
            EventKind::PresenceConfirmed => "presence_confirmed"@,
            EventKind::HeldToDeadline => "held_to_deadline"@,
            EventKind::Released => "released"@,
            EventKind::Deleted => "deleted"@,
            EventKind::AttemptFailed => "attempt_failed"@,
            EventKind::RetriesExhausted => "retries_exhausted"@,
            EventKind::ReacquisitionRequested => "reacquisition_requested"@,
        }
    }

    pub open spec fn all() -> Seq<EventKind> {
        seq![
            EventKind::Discovered,
            EventKind::AcquisitionStarted,
            EventKind::Acquired,
            EventKind::Transcribed,
            EventKind::SourceGone,
            EventKind::PresenceConfirmed,
            EventKind::HeldToDeadline,
            EventKind::Released,
            EventKind::Deleted,
            EventKind::AttemptFailed,
            EventKind::RetriesExhausted,
            EventKind::ReacquisitionRequested,
        ]
    }

    /// Every kind, in log order of the table.
    pub fn every() -> (r: [EventKind; 12])
        ensures
            r@ == Self::all(),
    {
        let r = [
            EventKind::Discovered,
            EventKind::AcquisitionStarted,
            EventKind::Acquired,
            EventKind::Transcribed,
            EventKind::SourceGone,
            EventKind::PresenceConfirmed,
            EventKind::HeldToDeadline,
            EventKind::Released,
            EventKind::Deleted,
            EventKind::AttemptFailed,
            EventKind::RetriesExhausted,
            EventKind::ReacquisitionRequested,
        ];
        assert(r@ =~= Self::all());
        r
    }

    /// The value of the kind in the log.
    pub fn as_str(self) -> (r: &'static str)
        ensures
            r@ == self.name(),
    {
        match self {
            EventKind::Discovered => "discovered",
            EventKind::AcquisitionStarted => "acquisition_started",
            EventKind::Acquired => "acquired",
            EventKind::Transcribed => "transcribed",
            EventKind::SourceGone => "source_gone",
            EventKind::PresenceConfirmed => "presence_confirmed",
            EventKind::HeldToDeadline => "held_to_deadline",
            EventKind::Released => "released",
            EventKind::Deleted => "deleted",
            EventKind::AttemptFailed => "attempt_failed",
            EventKind::RetriesExhausted => "retries_exhausted",
            EventKind::ReacquisitionRequested => "reacquisition_requested",
        }
    }

    /// Reads a value of the kind table.
    pub fn parse(s: &str) -> (r: Result<EventKind, UnknownEventKind>)
        ensures
            r matches Ok(k) ==> k.name() == s@,
            r is Err <==> (forall|k: EventKind| #[trigger] k.name() != s@),
            r matches Err(e) ==> e.0@ == s@,
    {
        let all = EventKind::every();
        let mut i: usize = 0;
        while i < 12
            invariant
                i <= 12,
                all@ == Self::all(),
                forall|j: int| 0 <= j < i ==> (#[trigger] all@[j]).name() != s@,
            decreases 12 - i,
        {
            if text::same(all[i].as_str(), s) {
                return Ok(all[i]);
            }
            i = i + 1;
        }
        proof {
            assert forall|k: EventKind| #[trigger] k.name() != s@ by {
                let j: int = match k {
                    EventKind::Discovered => 0,
                    EventKind::AcquisitionStarted => 1,
                    EventKind::Acquired => 2,
                    EventKind::Transcribed => 3,
                    EventKind::SourceGone => 4,
                    EventKind::PresenceConfirmed => 5,
                    EventKind::HeldToDeadline => 6,
                    EventKind::Released => 7,
                    EventKind::Deleted => 8,
                    EventKind::AttemptFailed => 9,
                    EventKind::RetriesExhausted => 10,
                    EventKind::ReacquisitionRequested => 11,
                };
                assert(all@[j] == k);
            }
        }
        Err(UnknownEventKind(s.to_owned()))
    }
}

impl core::str::FromStr for EventKind {
    type Err = UnknownEventKind;

    fn from_str(s: &str) -> (r: Result<EventKind, UnknownEventKind>)
        ensures
            r matches Ok(k) ==> k.name() == s@,
            r is Err <==> (forall|k: EventKind| #[trigger] k.name() != s@),
            r matches Err(e) ==> e.0@ == s@,
    {
        EventKind::parse(s)
    }
}

impl Event {
    pub open spec fn kind_of(self) -> EventKind {
        match self {
            Event::AcquisitionStarted => EventKind::AcquisitionStarted,
            Event::Acquired { .. } => EventKind::Acquired,
            Event::Transcribed => EventKind::Transcribed,
            Event::SourceGone => EventKind::SourceGone,
            Event::PresenceConfirmed(_) => EventKind::PresenceConfirmed,
            Event::HeldToDeadline(_) => EventKind::HeldToDeadline,
            Event::Released { .. } => EventKind::Released,
            Event::Deleted => EventKind::Deleted,
            Event::AttemptFailed { .. } => EventKind::AttemptFailed,
            Event::RetriesExhausted => EventKind::RetriesExhausted,
            Event::ReacquisitionRequested => EventKind::ReacquisitionRequested,
        }
    }

    /// The kind of the event in the log; never `discovered`.
    pub fn kind(&self) -> (r: EventKind)
        ensures
            r == self.kind_of(),
            r != EventKind::Discovered,
    {
        match self {
            Event::AcquisitionStarted => EventKind::AcquisitionStarted,
            Event::Acquired { .. } => EventKind::Acquired,
            Event::Transcribed => EventKind::Transcribed,
            Event::SourceGone => EventKind::SourceGone,
            Event::PresenceConfirmed(_) => EventKind::PresenceConfirmed,
            Event::HeldToDeadline(_) => EventKind::HeldToDeadline,
            Event::Released { .. } => EventKind::Released,
            Event::Deleted => EventKind::Deleted,
            Event::AttemptFailed { .. } => EventKind::AttemptFailed,
            Event::RetriesExhausted => EventKind::RetriesExhausted,
            Event::ReacquisitionRequested => EventKind::ReacquisitionRequested,
        }
    }
}

/// The state diagram: where `event` takes `state`, or nothing where the
/// diagram has no such arrow.
pub open spec fn transition(state: State, event: Event) -> Option<State> {
    match (event, state) {
        (Event::AcquisitionStarted, State::Waiting) => Some(State::Acquiring),
        (Event::Acquired { transcript, hold }, State::Acquiring) => Some(
            match (transcript, hold) {
                (TranscriptNeed::Needed, _) => State::Transcribing { hold },
                (TranscriptNeed::NotNeeded, Hold::Until(until)) => State::Holding { until },
                (TranscriptNeed::NotNeeded, Hold::NoDeadline) => State::Kept,
            },
        ),
        (Event::Transcribed, State::Transcribing { hold }) => Some(
            match hold {
                Hold::Until(until) => State::Holding { until },
                Hold::NoDeadline => State::Kept,
            },
        ),
        (Event::SourceGone, State::Holding { .. }) => Some(State::Kept),
        (Event::PresenceConfirmed(_), State::Holding { until }) => Some(State::Holding { until }),
        (Event::HeldToDeadline(_), State::Holding { .. }) => Some(State::Discarded),
        (Event::Released { reference }, State::Kept) => Some(State::Released { reference }),
        (Event::Deleted, s) => if s.name_of().live() {
            Some(State::Deleted)
        } else {
            None
        },
        (Event::AttemptFailed { .. }, State::Acquiring) => Some(State::Acquiring),
        (Event::AttemptFailed { .. }, State::Transcribing { hold }) => Some(
            State::Transcribing { hold },
        ),
        (Event::RetriesExhausted, State::Acquiring) => Some(State::Error),
        (Event::RetriesExhausted, State::Transcribing { .. }) => Some(State::Error),
        (Event::ReacquisitionRequested, s) => if s.name_of().live() {
            None
        } else {
            Some(State::Waiting)
        },
        _ => None,
    }
}

/// The state transition. Every state and event is written out; nothing
/// passes by default.
pub fn next(state: &State, event: &Event) -> (r: Result<State, IllegalTransition>)
    ensures
        match transition(*state, *event) {
            Some(s) => r == Ok::<State, IllegalTransition>(s),
            None => r == Err::<State, IllegalTransition>(
                IllegalTransition { from: *state, event: *event },
            ),
        },
{
    let next = match event {
        Event::AcquisitionStarted => match state {
            State::Waiting => State::Acquiring,
            State::Acquiring | State::Transcribing { .. } | State::Holding { .. } | State::Kept
            | State::Discarded | State::Released { .. } | State::Deleted | State::Error => {
                return Err(IllegalTransition { from: state.clone(), event: event.clone() });
            },
        },
        Event::Acquired { transcript, hold } => match state {
            State::Acquiring => match (transcript, hold) {
                (TranscriptNeed::Needed, hold) => State::Transcribing { hold: *hold },
                (TranscriptNeed::NotNeeded, Hold::Until(until)) => State::Holding { until: *until },
                (TranscriptNeed::NotNeeded, Hold::NoDeadline) => State::Kept,
            },
            State::Waiting | State::Transcribing { .. } | State::Holding { .. } | State::Kept
            | State::Discarded | State::Released { .. } | State::Deleted | State::Error => {
                return Err(IllegalTransition { from: state.clone(), event: event.clone() });
            },
        },
        Event::Transcribed => match state {
            State::Transcribing { hold } => match hold {
                Hold::Until(until) => State::Holding { until: *until },
                Hold::NoDeadline => State::Kept,
            },
            State::Waiting | State::Acquiring | State::Holding { .. } | State::Kept
            | State::Discarded | State::Released { .. } | State::Deleted | State::Error => {
                return Err(IllegalTransition { from: state.clone(), event: event.clone() });
            },
        },
        Event::SourceGone => match state {
            State::Holding { .. } => State::Kept,
            State::Waiting | State::Acquiring | State::Transcribing { .. } | State::Kept
            | State::Discarded | State::Released { .. } | State::Deleted | State::Error => {
                return Err(IllegalTransition { from: state.clone(), event: event.clone() });
            },
        },
        Event::PresenceConfirmed(_) => match state {
            State::Holding { until } => State::Holding { until: *until },
            State::Waiting | State::Acquiring | State::Transcribing { .. } | State::Kept
            | State::Discarded | State::Released { .. } | State::Deleted | State::Error => {
                return Err(IllegalTransition { from: state.clone(), event: event.clone() });
            },
        },
        Event::HeldToDeadline(_) => match state {
            State::Holding { .. } => State::Discarded,
            State::Waiting | State::Acquiring | State::Transcribing { .. } | State::Kept
            | State::Discarded | State::Released { .. } | State::Deleted | State::Error => {
                return Err(IllegalTransition { from: state.clone(), event: event.clone() });
            },
        },
        Event::Released { reference } => match state {
            State::Kept => State::Released {
                reference: match reference {
                    Some(r) => Some(r.clone()),
                    None => None,
                },
            },
            State::Waiting | State::Acquiring | State::Transcribing { .. } | State::Holding { .. }
            | State::Discarded | State::Released { .. } | State::Deleted | State::Error => {
                return Err(IllegalTransition { from: state.clone(), event: event.clone() });
            },
        },
        Event::Deleted => match state {
            State::Waiting | State::Acquiring | State::Transcribing { .. } | State::Holding { .. }
            | State::Kept => State::Deleted,
            State::Discarded | State::Released { .. } | State::Deleted | State::Error => {
                return Err(IllegalTransition { from: state.clone(), event: event.clone() });
            },
        },
        Event::AttemptFailed { .. } => match state {
            State::Acquiring => State::Acquiring,
            State::Transcribing { hold } => State::Transcribing { hold: *hold },
            State::Waiting | State::Holding { .. } | State::Kept | State::Discarded
            | State::Released { .. } | State::Deleted | State::Error => {
                return Err(IllegalTransition { from: state.clone(), event: event.clone() });
            },
        },
        Event::RetriesExhausted => match state {
            State::Acquiring | State::Transcribing { .. } => State::Error,
            State::Waiting | State::Holding { .. } | State::Kept | State::Discarded
            | State::Released { .. } | State::Deleted | State::Error => {
                return Err(IllegalTransition { from: state.clone(), event: event.clone() });
            },
        },
        Event::ReacquisitionRequested => match state {
            State::Discarded | State::Released { .. } | State::Deleted | State::Error => State::Waiting,
            State::Waiting | State::Acquiring | State::Transcribing { .. } | State::Holding { .. }
            | State::Kept => {
                return Err(IllegalTransition { from: state.clone(), event: event.clone() });
            },
        },
    };
    Ok(next)
}

/// The state named by the three columns the ledger keeps for it — name,
/// deadline and reference — or nothing when they do not fit together.
pub open spec fn from_columns(
    name: StateName,
    deadline: Option<Timestamp>,
    reference: Option<ReleaseReference>,
) -> Option<State> {
    if reference is Some && name != StateName::Released {
        None
    } else if deadline is Some && name != StateName::Transcribing && name != StateName::Holding {
        None
    } else {
        match name {
            StateName::Waiting => Some(State::Waiting),
            StateName::Acquiring => Some(State::Acquiring),
            StateName::Transcribing => Some(
                State::Transcribing {
                    hold: match deadline {
                        Some(t) => Hold::Until(t),
                        None => Hold::NoDeadline,
                    },
                },
            ),
            StateName::Holding => match deadline {
                Some(t) => Some(State::Holding { until: t }),
                None => None,
            },
            StateName::Kept => Some(State::Kept),
            StateName::Discarded => Some(State::Discarded),
            StateName::Released => Some(State::Released { reference }),
            StateName::Deleted => Some(State::Deleted),
            StateName::Error => Some(State::Error),
        }
    }
}

/// The columns written for a state give the state back: nothing a state
/// carries is lost on the way to the ledger.
pub proof fn lemma_columns_round_trip(state: State)
    ensures
        from_columns(state.name_of(), state.deadline_of(), state.reference_of()) == Some(state),
{
}

/// A terminal state is left only when a person asks for the item again, and
/// then it starts over from `waiting`.
pub proof fn lemma_terminal_states_wait_for_a_person(state: State, event: Event)
    requires
        !state.name_of().live(),
    ensures
        transition(state, event) is Some ==> event is ReacquisitionRequested && transition(
            state,
            event,
        ) == Some(State::Waiting),
        event is ReacquisitionRequested ==> transition(state, event) == Some(State::Waiting),
{
}

/// A failed attempt and a confirmed presence move nothing: where they are
/// allowed the state stays exactly as it was.
pub proof fn lemma_quiet_events_move_nothing(state: State, reason: FailureReason, seen: PresenceConfirmed)
    ensures
        transition(state, (Event::AttemptFailed { reason })) is Some ==> transition(
            state,
            (Event::AttemptFailed { reason }),
        ) == Some(state),
        transition(state, (Event::AttemptFailed { reason })) is Some <==> (state is Acquiring
            || state is Transcribing),
        transition(state, Event::PresenceConfirmed(seen)) is Some ==> transition(
            state,
            Event::PresenceConfirmed(seen),
        ) == Some(state),
        transition(state, Event::PresenceConfirmed(seen)) is Some <==> state is Holding,
{
}

/// Only a kept item can be released, and releasing carries the reference.
pub proof fn lemma_release_only_from_kept(state: State, reference: Option<ReleaseReference>)
    ensures
        transition(state, (Event::Released { reference })) is Some <==> state == State::Kept,
        state == State::Kept ==> transition(state, (Event::Released { reference })) == Some(
            (State::Released { reference }),
        ),
{
}

/// Any live item can be deleted by hand, and nothing else can.
pub proof fn lemma_live_items_can_be_deleted(state: State)
    ensures
        transition(state, Event::Deleted) is Some <==> state.name_of().live(),
        state.name_of().live() ==> transition(state, Event::Deleted) == Some(State::Deleted),
{
}

/// An item is discarded only from `holding`, and only by the event that
/// carries a confirmed presence: silence never discards.
pub proof fn lemma_discarding_needs_confirmed_presence(state: State, event: Event)
    ensures
        transition(state, event) == Some(State::Discarded) ==> state is Holding
            && event is HeldToDeadline,
{
}

/// An item is `holding` only with a deadline that came from the acquisition
/// or that it already held; with no deadline it never passes `holding`.
pub proof fn lemma_holding_needs_a_deadline(state: State, event: Event, until: Timestamp)
    ensures
        transition(state, event) == Some((State::Holding { until })) ==> (state == (State::Holding {
            until,
        }) || state == (State::Transcribing { hold: Hold::Until(until) }) || (state is Acquiring
            && event == (Event::Acquired {
            transcript: TranscriptNeed::NotNeeded,
            hold: Hold::Until(until),
        }))),
{
}

/// The deadline fixed when acquisition ends is the one `holding` ends up with,
/// whether or not transcription comes between.
pub proof fn lemma_the_deadline_travels_in_the_state(until: Timestamp)
    ensures
        transition(
            State::Acquiring,
            (Event::Acquired { transcript: TranscriptNeed::Needed, hold: Hold::Until(until) }),
        ) == Some((State::Transcribing { hold: Hold::Until(until) })),
        transition((State::Transcribing { hold: Hold::Until(until) }), Event::Transcribed) == Some(
            (State::Holding { until }),
        ),
        transition(
            State::Acquiring,
            (Event::Acquired { transcript: TranscriptNeed::NotNeeded, hold: Hold::Until(until) }),
        ) == Some((State::Holding { until })),
        transition((State::Transcribing { hold: Hold::NoDeadline }), Event::Transcribed) == Some(
            State::Kept,
        ),
{
}

/// No two states share a value, so a value read back names one state.
pub proof fn lemma_state_names_are_distinct(a: StateName, b: StateName)
    ensures
        a.name() == b.name() ==> a == b,
{
    reveal_strlit("waiting");
    reveal_strlit("acquiring");
    reveal_strlit("transcribing");
    reveal_strlit("holding");
    reveal_strlit("kept");
    reveal_strlit("discarded");
    reveal_strlit("released");
    reveal_strlit("deleted");
    reveal_strlit("error");
    if a != b && a.name() == b.name() {
        assert(a.name().len() == b.name().len());
        assert(a.name()[0] == b.name()[0]);
        assert(a.name()[1] == b.name()[1]);
    }
}

/// No two kinds of log entry share a value.
pub proof fn lemma_event_kind_names_are_distinct(a: EventKind, b: EventKind)
    ensures
        a.name() == b.name() ==> a == b,
{
    reveal_strlit("discovered");
    reveal_strlit("acquisition_started");
    reveal_strlit("acquired");
    reveal_strlit("transcribed");
    reveal_strlit("source_gone");
    reveal_strlit("presence_confirmed");
    reveal_strlit("held_to_deadline");
    reveal_strlit("released");
    reveal_strlit("deleted");
    reveal_strlit("attempt_failed");
    reveal_strlit("retries_exhausted");
    reveal_strlit("reacquisition_requested");
    if a != b && a.name() == b.name() {
        assert(a.name().len() == b.name().len());
        assert(a.name()[0] == b.name()[0]);
        assert(a.name()[2] == b.name()[2]);
        assert(a.name()[8] == b.name()[8]);
    }
}


} // verus!
