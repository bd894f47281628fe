use escrow::custody::{Custody, CustodyError};
use escrow::hold::HoldDeadline;
use escrow::item::ItemId;
use escrow::ledger::{group_by_item, replay, EventRow};
use escrow::liveness::Presence;
use escrow::state::{Event, FailureReason, Hold, State, StateName, TranscriptNeed};
use escrow::adapter::AdapterError;
use escrow::timestamp::Timestamp;

fn at(text: &str) -> Timestamp {
    Timestamp::parse(text).expect(text)
}

fn row(item_id: i64, seq: i64) -> EventRow {
    EventRow {
        item_id,
        source_id: 1,
        seq,
        kind: "discovered".to_owned(),
        occurred_at: "2026-03-01T20:00:00+09:00".to_owned(),
        url: None,
        content_type: None,
        published_at: None,
        scheduled_start_at: None,
        title: None,
        body: None,
        in_reply_to_url: None,
        quoted_url: None,
        media_present: None,
        transcript_needed: None,
        hold_until: None,
        release_reference: None,
        failure_reason: None,
    }
}

#[test]
fn rows_are_grouped_per_item_in_order() {
    let rows = vec![row(1, 1), row(1, 2), row(2, 1), row(3, 1), row(3, 2)];
    let groups = group_by_item(rows);
    let shape: Vec<Vec<(i64, i64)>> = groups
        .iter()
        .map(|g| g.iter().map(|r| (r.item_id, r.seq)).collect())
        .collect();
    assert_eq!(shape, vec![vec![(1, 1), (1, 2)], vec![(2, 1)], vec![(3, 1), (3, 2)]]);
    assert!(group_by_item(Vec::new()).is_empty());
}

#[test]
fn a_log_replays_into_the_state_it_leads_to() {
    let born = at("2026-03-01T20:00:00+09:00");
    let deadline = at("2026-03-09T00:30:00+09:00");
    let events = vec![
        (Event::AcquisitionStarted, at("2026-03-01T20:05:00+09:00")),
        (
            Event::AttemptFailed { reason: FailureReason::new("network".to_owned()) },
            at("2026-03-01T20:06:00+09:00"),
        ),
        (
            Event::Acquired { transcript: TranscriptNeed::NotNeeded, hold: Hold::Until(deadline) },
            at("2026-03-02T00:30:00+09:00"),
        ),
    ];
    let (state, since) = replay(State::Waiting, born, &events).unwrap();
    assert_eq!(state, State::Holding { until: deadline });
    assert_eq!(since.to_text(), "2026-03-02T00:30:00+09:00");
}

#[test]
fn failures_do_not_move_the_moment() {
    let born = at("2026-03-01T20:00:00+09:00");
    let events = vec![
        (Event::AcquisitionStarted, at("2026-03-01T20:05:00+09:00")),
        (
            Event::AttemptFailed { reason: FailureReason::new("a".to_owned()) },
            at("2026-03-01T21:00:00+09:00"),
        ),
    ];
    let (state, since) = replay(State::Waiting, born, &events).unwrap();
    assert_eq!(state, State::Acquiring);
    assert_eq!(since.to_text(), "2026-03-01T20:05:00+09:00");
}

#[test]
fn a_log_with_an_illegal_step_does_not_replay() {
    let born = at("2026-03-01T20:00:00+09:00");
    let events = vec![(Event::Transcribed, at("2026-03-01T20:05:00+09:00"))];
    assert!(replay(State::Waiting, born, &events).is_err());
}

#[test]
fn a_refused_log_names_its_first_refused_event() {
    let born = at("2026-03-01T20:00:00+09:00");
    let events = vec![
        (Event::AcquisitionStarted, at("2026-03-01T20:05:00+09:00")),
        (Event::Transcribed, at("2026-03-01T20:06:00+09:00")),
        (Event::AcquisitionStarted, at("2026-03-01T20:07:00+09:00")),
    ];
    let refusal = replay(State::Waiting, born, &events).unwrap_err();
    assert_eq!(refusal.from, State::Acquiring);
    assert_eq!(refusal.event, Event::Transcribed);
}

#[test]
fn the_deadline_is_hold_days_after_it_became_holding() {
    let deadline = HoldDeadline::new(at("2026-03-01T20:00:00+09:00"), 7);
    assert_eq!(deadline.at().to_text(), "2026-03-08T20:00:00+09:00");
}

#[test]
fn the_witness_appears_only_once_the_deadline_has_passed() {
    let deadline = HoldDeadline::new(at("2026-03-01T20:00:00+09:00"), 7);
    assert!(deadline.reached(at("2026-03-08T19:59:59+09:00")).is_none());
    assert!(deadline.reached(at("2026-03-08T20:00:00+09:00")).is_some());
    assert!(deadline.reached(at("2026-03-09T00:00:00+09:00")).is_some());
}

#[test]
fn compares_instants_across_offsets() {
    let deadline = HoldDeadline::new(at("2026-03-01T20:00:00+09:00"), 1);
    assert!(deadline.reached(at("2026-03-02T11:00:00+00:00")).is_some());
    assert!(deadline.reached(at("2026-03-02T10:59:59+00:00")).is_none());
}

fn holding() -> State {
    State::Holding { until: at("2026-03-09T00:30:00+09:00") }
}

#[test]
fn custody_discards_only_what_was_seen_until_the_deadline() {
    let custody = Custody::new("/m".to_owned());
    let id = ItemId::new(42);
    let after = at("2026-03-09T00:30:00+09:00");
    let before = at("2026-03-09T00:29:59+09:00");

    assert!(matches!(
        custody.decide(id, &holding(), Some(Ok(Presence::Present)), after),
        Ok(Some(Event::HeldToDeadline(_)))
    ));
    assert!(matches!(
        custody.decide(id, &holding(), Some(Ok(Presence::Present)), before),
        Ok(Some(Event::PresenceConfirmed(_)))
    ));
    assert_eq!(
        custody.decide(id, &holding(), Some(Ok(Presence::Gone)), after),
        Ok(Some(Event::SourceGone))
    );
    assert_eq!(custody.decide(id, &holding(), Some(Ok(Presence::Unknown)), after), Ok(None));
    assert_eq!(custody.decide(id, &holding(), None, after), Ok(None));
}

#[test]
fn custody_keeps_what_the_source_lost_even_through_a_failure() {
    let custody = Custody::new("/m".to_owned());
    let gone = AdapterError::Unavailable { url: "https://www.youtube.com/watch?v=x".to_owned() };
    assert_eq!(
        custody.decide(ItemId::new(1), &holding(), Some(Err(gone)), at("2026-03-02T00:00:00+09:00")),
        Ok(Some(Event::SourceGone))
    );
    let auth = AdapterError::Unauthenticated { detail: "d".to_owned() };
    assert!(matches!(
        custody.decide(ItemId::new(1), &holding(), Some(Err(auth)), at("2026-03-02T00:00:00+09:00")),
        Err(CustodyError::Adapter(_))
    ));
}

#[test]
fn custody_checks_only_held_items() {
    let custody = Custody::new("/m".to_owned());
    assert_eq!(
        custody.decide(ItemId::new(3), &State::Kept, None, at("2026-03-02T00:00:00+09:00")),
        Err(CustodyError::NotHolding { id: ItemId::new(3), state: StateName::Kept })
    );
}
