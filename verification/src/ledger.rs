//! The log behind the ledger: every item is the state its events lead to.
//!
//! The rows a person reads are rebuilt from the log by replaying each item's
//! events through the state diagram, so the log is the only thing written
//! and the rows can always be thrown away and made again.

use vstd::prelude::*;

use crate::state::{next, transition, Event, IllegalTransition, State};
use crate::timestamp::Timestamp;

verus! {

/// One stored log entry, column by column, as it is read back in order of
/// item and sequence number.
#[derive(Debug, Clone, PartialEq, Eq)]
pub struct EventRow {
    pub item_id: i64,
    pub source_id: i64,
    pub seq: i64,
    pub kind: String,
    pub occurred_at: String,
    pub url: Option<String>,
    pub content_type: Option<String>,
    pub published_at: Option<String>,
    pub scheduled_start_at: Option<String>,
    pub title: Option<String>,
    pub body: Option<String>,
    pub in_reply_to_url: Option<String>,
    pub quoted_url: Option<String>,
    pub media_present: Option<bool>,
    pub transcript_needed: Option<bool>,
    pub hold_until: Option<String>,
    pub release_reference: Option<String>,
    pub failure_reason: Option<String>,
}

/// The rows of groups laid end to end.
pub open spec fn concat_groups(gs: Seq<Seq<EventRow>>) -> Seq<EventRow>
    decreases gs.len(),
{
    if gs.len() == 0 {
        Seq::empty()
    } else {
        concat_groups(gs.drop_last()) + gs.last()
    }
}

/// The views of a run of groups.
pub open spec fn group_views(gs: Seq<Vec<EventRow>>) -> Seq<Seq<EventRow>> {
    Seq::new(gs.len(), |i: int| gs[i]@)
}

/// Whether groups are what splitting a run of rows at every change of item
/// gives: none empty, each of one item, neighbours of different items.
pub open spec fn grouped_by_item(gs: Seq<Seq<EventRow>>) -> bool {
    &&& forall|i: int| 0 <= i < gs.len() ==> #[trigger] gs[i].len() > 0
    &&& forall|i: int, j: int|
        0 <= i < gs.len() && 0 <= j < gs[i].len() ==> (#[trigger] gs[i][j]).item_id
            == gs[i][0].item_id
    &&& forall|i: int|
        0 < i < gs.len() ==> (#[trigger] gs[i])[0].item_id != gs[i - 1][0].item_id
}

proof fn lemma_concat_push(gs: Seq<Seq<EventRow>>, g: Seq<EventRow>)
    ensures
        concat_groups(gs.push(g)) == concat_groups(gs) + g,
{
    assert(gs.push(g).drop_last() =~= gs);
}

proof fn lemma_concat_extend_last(gs: Seq<Seq<EventRow>>, x: EventRow)
    requires
        gs.len() > 0,
    ensures
        concat_groups(gs.drop_last().push(gs.last().push(x))) == concat_groups(gs) + seq![x],
{
    lemma_concat_push(gs.drop_last(), gs.last().push(x));
    assert(gs.drop_last().push(gs.last()) =~= gs);
    lemma_concat_push(gs.drop_last(), gs.last());
    assert(concat_groups(gs.drop_last()) + gs.last().push(x) =~= concat_groups(gs.drop_last())
        + gs.last() + seq![x]);
}

proof fn lemma_grouped_extend_last(gs: Seq<Seq<EventRow>>, x: EventRow)
    requires
        grouped_by_item(gs),
        gs.len() > 0,
        x.item_id == gs.last()[0].item_id,
    ensures
        grouped_by_item(gs.drop_last().push(gs.last().push(x))),
{
    let hs = gs.drop_last().push(gs.last().push(x));
    assert forall|i: int, j: int| 0 <= i < hs.len() && 0 <= j < hs[i].len() implies (
    #[trigger] hs[i][j]).item_id == hs[i][0].item_id by {
        if i < hs.len() - 1 {
            assert(hs[i] == gs[i]);
        } else {
            assert(hs[i][0] == gs[i][0]);
            if j < gs[i].len() {
                assert(hs[i][j] == gs[i][j]);
            }
        }
    }
    assert forall|i: int| 0 < i < hs.len() implies (#[trigger] hs[i])[0].item_id != hs[i
        - 1][0].item_id by {
        assert(hs[i][0] == gs[i][0]);
        assert(hs[i - 1][0] == gs[i - 1][0]);
    }
    assert forall|i: int| 0 <= i < hs.len() implies #[trigger] hs[i].len() > 0 by {
        if i < hs.len() - 1 {
            assert(hs[i] == gs[i]);
        }
    }
}

proof fn lemma_grouped_push(gs: Seq<Seq<EventRow>>, x: EventRow)
    requires
        grouped_by_item(gs),
        gs.len() > 0 ==> x.item_id != gs.last()[0].item_id,
    ensures
        grouped_by_item(gs.push(seq![x])),
{
    let hs = gs.push(seq![x]);
    assert forall|i: int, j: int| 0 <= i < hs.len() && 0 <= j < hs[i].len() implies (
    #[trigger] hs[i][j]).item_id == hs[i][0].item_id by {
        if i < hs.len() - 1 {
            assert(hs[i] == gs[i]);
        }
    }
    assert forall|i: int| 0 < i < hs.len() implies (#[trigger] hs[i])[0].item_id != hs[i
        - 1][0].item_id by {
        if i < hs.len() - 1 {
            assert(hs[i] == gs[i]);
        }
        assert(hs[i - 1] == gs[i - 1]);
    }
    assert forall|i: int| 0 <= i < hs.len() implies #[trigger] hs[i].len() > 0 by {
        if i < hs.len() - 1 {
            assert(hs[i] == gs[i]);
        }
    }
}

/// Splits rows, ordered by item, into one run per item.
pub fn group_by_item(rows: Vec<EventRow>) -> (r: Vec<Vec<EventRow>>)
    ensures
        concat_groups(group_views(r@)) == rows@,
        grouped_by_item(group_views(r@)),
{
    let mut rest = rows;
    let ghost whole = rest@;
    let mut groups: Vec<Vec<EventRow>> = Vec::new();
    assert(group_views(groups@) =~= Seq::<Seq<EventRow>>::empty());
    assert(concat_groups(Seq::<Seq<EventRow>>::empty()) + rest@ =~= whole);
    while rest.len() > 0
        invariant
            concat_groups(group_views(groups@)) + rest@ == whole,
            grouped_by_item(group_views(groups@)),
        decreases rest@.len(),
    {
        let ghost before = group_views(groups@);
        let ghost rest_before = rest@;
        let row = rest.remove(0);
        let n = groups.len();
        let same = n > 0 && groups[n - 1].len() > 0 && groups[n - 1][0].item_id == row.item_id;
        proof {
            if n > 0 {
                assert(before.last() == groups@[n - 1]@);
                assert(before.last().len() > 0);
            }
        }
        if same {
            let mut last = groups.pop().unwrap();
            let ghost last_before = last@;
            last.push(row);
            groups.push(last);
            proof {
                assert(before.last() == last_before);
                assert(group_views(groups@) =~= before.drop_last().push(before.last().push(row)));
                lemma_concat_extend_last(before, row);
                lemma_grouped_extend_last(before, row);
            }
        } else {
            let mut fresh: Vec<EventRow> = Vec::new();
            fresh.push(row);
            groups.push(fresh);
            proof {
                assert(group_views(groups@) =~= before.push(seq![row]));
                lemma_concat_push(before, seq![row]);
                lemma_grouped_push(before, row);
            }
        }
        assert(seq![row] + rest@ =~= rest_before);
        assert(concat_groups(before) + seq![row] + rest@ =~= concat_groups(before) + rest_before);
    }
    assert(concat_groups(group_views(groups@)) + rest@ =~= concat_groups(group_views(groups@)));
    groups
}

/// Whether an event moves nothing where it is allowed: a failed attempt and
/// a confirmed presence leave the state, and the moment it was entered.
pub open spec fn quiet(event: Event) -> bool {
    event is AttemptFailed || event is PresenceConfirmed
}

/// The state and the moment it was entered, after the events of a log, or
/// nothing when one of them is not allowed where it comes.
pub open spec fn replayed(start: State, since: Timestamp, events: Seq<(Event, Timestamp)>) -> Option<
    (State, Timestamp),
>
    decreases events.len(),
{
    if events.len() == 0 {
        Some((start, since))
    } else {
        match replayed(start, since, events.drop_last()) {
            None => None,
            Some((s, t)) => match transition(s, events.last().0) {
                None => None,
                Some(n) => Some(
                    (
                        n,
                        if quiet(events.last().0) {
                            t
                        } else {
                            events.last().1
                        },
                    ),
                ),
            },
        }
    }
}

/// The refusal that stops a log: the state reached and the first event that
/// the state diagram does not allow there, or nothing when every event is
/// allowed where it comes.
pub open spec fn first_refusal(start: State, since: Timestamp, events: Seq<(Event, Timestamp)>) -> Option<
    IllegalTransition,
>
    decreases events.len(),
{
    if events.len() == 0 {
        None
    } else {
        match replayed(start, since, events.drop_last()) {
            None => first_refusal(start, since, events.drop_last()),
            Some((s, _)) => match transition(s, events.last().0) {
                None => Some(IllegalTransition { from: s, event: events.last().0 }),
                Some(_) => None,
            },
        }
    }
}

/// Replays an item's events, in order and each with its moment, from the
/// state it was born in; a log that the diagram refuses gives the refusal of
/// its first event that is not allowed.
pub fn replay(start: State, since: Timestamp, events: &Vec<(Event, Timestamp)>) -> (r: Result<
    (State, Timestamp),
    IllegalTransition,
>)
    ensures
        match replayed(start, since, events@) {
            Some(p) => r == Ok::<(State, Timestamp), IllegalTransition>(p),
            None => r matches Err(e) && first_refusal(start, since, events@) == Some(e),
        },
{
    let mut state = start;
    let mut at = since;
    let mut i: usize = 0;
    while i < events.len()
        invariant
            i <= events@.len(),
            replayed(start, since, events@.take(i as int)) == Some((state, at)),
        decreases events@.len() - i,
    {
        assert(events@.take(i + 1).drop_last() =~= events@.take(i as int));
        let (event, occurred_at) = &events[i];
        match next(&state, event) {
            Ok(n) => {
                let is_quiet = match event {
                    Event::AttemptFailed { .. } | Event::PresenceConfirmed(_) => true,
                    _ => false,
                };
                state = n;
                if !is_quiet {
                    at = *occurred_at;
                }
            },
            Err(e) => {
                proof {
                    lemma_failure_persists(start, since, events@, i + 1);
                }
                assert(first_refusal(start, since, events@.take(i + 1)) == Some(e));
                return Err(e);
            },
        }
        i = i + 1;
    }
    assert(events@.take(events@.len() as int) =~= events@);
    Ok((state, at))
}

/// Once a prefix of a log cannot be replayed, neither can the whole, and the
/// refusal is the prefix's.
proof fn lemma_failure_persists(start: State, since: Timestamp, events: Seq<(Event, Timestamp)>, k: int)
    requires
        0 <= k <= events.len(),
        replayed(start, since, events.take(k)) is None,
    ensures
        replayed(start, since, events) is None,
        first_refusal(start, since, events) == first_refusal(start, since, events.take(k)),
    decreases events.len() - k,
{
    if k < events.len() {
        assert(events.take(k + 1).drop_last() =~= events.take(k));
        lemma_failure_persists(start, since, events, k + 1);
    } else {
        assert(events.take(k) =~= events);
    }
}

/// Appending an event to a log moves the replayed item exactly as the
/// state diagram moves it: what the rows show after a write is the diagram
/// applied to what they showed before.
pub proof fn lemma_append_is_one_step(
    start: State,
    since: Timestamp,
    events: Seq<(Event, Timestamp)>,
    event: Event,
    at: Timestamp,
)
    ensures
        replayed(start, since, events.push((event, at))) == match replayed(start, since, events) {
            None => None,
            Some((s, t)) => match transition(s, event) {
                None => None,
                Some(n) => Some((n, if quiet(event) { t } else { at })),
            },
        },
{
    assert(events.push((event, at)).drop_last() =~= events);
}

/// Quiet events leave the replayed state and its moment as they were.
pub proof fn lemma_quiet_events_keep_the_moment(
    start: State,
    since: Timestamp,
    events: Seq<(Event, Timestamp)>,
    event: Event,
    at: Timestamp,
)
    requires
        quiet(event),
        replayed(start, since, events) matches Some((s, _)) && transition(s, event) is Some,
    ensures
        replayed(start, since, events.push((event, at))) == replayed(start, since, events),
{
    assert(events.push((event, at)).drop_last() =~= events);
    let s = match replayed(start, since, events) {
        Some((s, _)) => s,
        None => start,
    };
    match event {
        Event::AttemptFailed { reason } => {
            crate::state::lemma_quiet_events_move_nothing(
                s,
                reason,
                vstd::pervasive::arbitrary(),
            );
        },
        Event::PresenceConfirmed(w) => {
            crate::state::lemma_quiet_events_move_nothing(
                s,
                vstd::pervasive::arbitrary(),
                w,
            );
        },
        _ => {},
    }
}

} // verus!
