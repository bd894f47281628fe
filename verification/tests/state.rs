use escrow::liveness::{Presence, PresenceConfirmed};
use escrow::state::{
    next, Event, EventKind, FailureReason, Hold, MediaPresence, ReleaseReference, State, StateName,
    TranscriptNeed,
};
use escrow::timestamp::Timestamp;

fn confirmed() -> PresenceConfirmed {
    Presence::Present.confirmed().expect("Present yields the witness")
}

fn deadline() -> Timestamp {
    Timestamp::parse("2026-09-10T22:10:00+09:00").expect("fixed value")
}

fn all_states() -> [State; 9] {
    [
        State::Waiting,
        State::Acquiring,
        State::Transcribing { hold: Hold::NoDeadline },
        State::Holding { until: deadline() },
        State::Kept,
        State::Discarded,
        State::Released { reference: None },
        State::Deleted,
        State::Error,
    ]
}

fn all_events() -> [Event; 11] {
    [
        Event::AcquisitionStarted,
        Event::Acquired { transcript: TranscriptNeed::Needed, hold: Hold::NoDeadline },
        Event::Transcribed,
        Event::SourceGone,
        Event::PresenceConfirmed(confirmed()),
        Event::HeldToDeadline(confirmed()),
        Event::Released { reference: None },
        Event::Deleted,
        Event::AttemptFailed { reason: FailureReason::new("HTTP 403".to_owned()) },
        Event::RetriesExhausted,
        Event::ReacquisitionRequested,
    ]
}

#[test]
fn reproduces_every_transition_in_the_diagram() {
    let cases: Vec<(State, Event, State)> = vec![
        (State::Waiting, Event::AcquisitionStarted, State::Acquiring),
        (
            State::Acquiring,
            Event::Acquired { transcript: TranscriptNeed::Needed, hold: Hold::Until(deadline()) },
            State::Transcribing { hold: Hold::Until(deadline()) },
        ),
        (
            State::Acquiring,
            Event::Acquired { transcript: TranscriptNeed::Needed, hold: Hold::NoDeadline },
            State::Transcribing { hold: Hold::NoDeadline },
        ),
        (
            State::Acquiring,
            Event::Acquired { transcript: TranscriptNeed::NotNeeded, hold: Hold::Until(deadline()) },
            State::Holding { until: deadline() },
        ),
        (
            State::Acquiring,
            Event::Acquired { transcript: TranscriptNeed::NotNeeded, hold: Hold::NoDeadline },
            State::Kept,
        ),
        (
            State::Transcribing { hold: Hold::Until(deadline()) },
            Event::Transcribed,
            State::Holding { until: deadline() },
        ),
        (State::Transcribing { hold: Hold::NoDeadline }, Event::Transcribed, State::Kept),
        (State::Holding { until: deadline() }, Event::SourceGone, State::Kept),
        (State::Holding { until: deadline() }, Event::HeldToDeadline(confirmed()), State::Discarded),
        (
            State::Holding { until: deadline() },
            Event::PresenceConfirmed(confirmed()),
            State::Holding { until: deadline() },
        ),
        (
            State::Acquiring,
            Event::AttemptFailed { reason: FailureReason::new("HTTP 403".to_owned()) },
            State::Acquiring,
        ),
        (
            State::Transcribing { hold: Hold::Until(deadline()) },
            Event::AttemptFailed { reason: FailureReason::new("whisper が落ちた".to_owned()) },
            State::Transcribing { hold: Hold::Until(deadline()) },
        ),
        (State::Kept, Event::Released { reference: None }, State::Released { reference: None }),
        (State::Waiting, Event::Deleted, State::Deleted),
        (State::Acquiring, Event::Deleted, State::Deleted),
        (State::Transcribing { hold: Hold::NoDeadline }, Event::Deleted, State::Deleted),
        (State::Holding { until: deadline() }, Event::Deleted, State::Deleted),
        (State::Kept, Event::Deleted, State::Deleted),
        (State::Acquiring, Event::RetriesExhausted, State::Error),
        (State::Transcribing { hold: Hold::NoDeadline }, Event::RetriesExhausted, State::Error),
        (State::Discarded, Event::ReacquisitionRequested, State::Waiting),
        (State::Released { reference: None }, Event::ReacquisitionRequested, State::Waiting),
        (State::Deleted, Event::ReacquisitionRequested, State::Waiting),
        (State::Error, Event::ReacquisitionRequested, State::Waiting),
    ];

    for (from, event, expected) in cases {
        let got = next(&from, &event)
            .unwrap_or_else(|e| panic!("an arrow of the diagram is refused: {:?}", e));
        assert_eq!(got, expected, "{} + {}", from.as_str(), event.kind().as_str());
    }
}

#[test]
fn exactly_the_diagram_is_legal() {
    let mut legal = 0;
    let mut total = 0;

    for state in all_states() {
        for event in all_events() {
            total += 1;
            if next(&state, &event).is_ok() {
                legal += 1;
            }
        }
    }

    assert_eq!(total, 99);
    assert_eq!(legal, 20, "the diagram has 20 arrows");
}

#[test]
fn the_deadline_travels_in_the_state_not_in_transcribed() {
    let acquired =
        Event::Acquired { transcript: TranscriptNeed::Needed, hold: Hold::Until(deadline()) };
    let transcribing = next(&State::Acquiring, &acquired).unwrap();
    assert_eq!(transcribing.hold_until(), Some(deadline()));

    let holding = next(&transcribing, &Event::Transcribed).unwrap();
    assert_eq!(holding, State::Holding { until: deadline() });
}

#[test]
fn holding_cannot_exist_without_a_deadline() {
    assert_eq!(
        next(&State::Transcribing { hold: Hold::NoDeadline }, &Event::Transcribed).unwrap(),
        State::Kept,
        "without a deadline holding is skipped"
    );
    assert_eq!(
        next(
            &State::Acquiring,
            &Event::Acquired { transcript: TranscriptNeed::NotNeeded, hold: Hold::NoDeadline }
        )
        .unwrap(),
        State::Kept,
    );
}

#[test]
fn failures_pile_up_without_moving_the_state() {
    let failed = Event::AttemptFailed { reason: FailureReason::new("HTTP 403".to_owned()) };

    let mut state = State::Acquiring;
    for _ in 0..3 {
        state = next(&state, &failed).unwrap();
    }
    assert_eq!(state, State::Acquiring);

    assert_eq!(next(&state, &Event::RetriesExhausted).unwrap(), State::Error);
}

#[test]
fn discarding_needs_a_confirmed_presence() {
    assert!(Presence::Unknown.confirmed().is_none());
    assert!(Presence::Gone.confirmed().is_none());

    let event = Event::HeldToDeadline(Presence::Present.confirmed().unwrap());
    assert_eq!(next(&State::Holding { until: deadline() }, &event).unwrap(), State::Discarded);
}

#[test]
fn release_is_only_reachable_from_kept() {
    let event = Event::Released {
        reference: Some(ReleaseReference::new("Attachments/2026-03-01 ○○.mp4".to_owned())),
    };

    assert!(next(&State::Holding { until: deadline() }, &event).is_err());
    assert!(next(&State::Waiting, &event).is_err());

    let released = next(&State::Kept, &event).unwrap();
    assert_eq!(
        released,
        State::Released {
            reference: Some(ReleaseReference::new("Attachments/2026-03-01 ○○.mp4".to_owned())),
        }
    );
    assert_eq!(released.as_str(), "released");
}

#[test]
fn initial_state_follows_whether_there_is_media_to_fetch() {
    assert_eq!(State::initial(MediaPresence::Present), State::Waiting);
    assert_eq!(State::initial(MediaPresence::Absent), State::Kept);
}

#[test]
fn every_state_has_a_name_and_back() {
    let names: Vec<StateName> = all_states().iter().map(State::name).collect();
    assert_eq!(names, StateName::every().to_vec());

    for name in StateName::every() {
        assert_eq!(name.as_str().parse::<StateName>().unwrap(), name);
    }
    assert!("gone".parse::<StateName>().is_err());
}

#[test]
fn every_event_kind_round_trips() {
    for kind in EventKind::every() {
        assert_eq!(kind.as_str().parse::<EventKind>().unwrap(), kind);
    }
    assert!("archived".parse::<EventKind>().is_err());

    let from_events: Vec<EventKind> = all_events().iter().map(Event::kind).collect();
    let expected: Vec<EventKind> =
        EventKind::every().into_iter().filter(|k| *k != EventKind::Discovered).collect();
    assert_eq!(from_events, expected);
}

#[test]
fn the_projected_columns_cover_what_the_state_carries() {
    for state in all_states() {
        let has_payload = state.hold_until().is_some() || state.release_reference().is_some();
        let carries_one = matches!(
            state,
            State::Transcribing { hold: Hold::Until(_) }
                | State::Holding { .. }
                | State::Released { reference: Some(_) }
        );
        assert_eq!(has_payload, carries_one, "{}", state.as_str());
    }

    assert_eq!(State::Kept.hold_until(), None);
    assert_eq!(
        State::Transcribing { hold: Hold::NoDeadline }.hold_until(),
        None,
        "transcribing without a deadline leaves the column empty"
    );
}

#[test]
fn kept_is_not_terminal() {
    assert!(State::Kept.is_live());
    assert!(!State::Kept.is_terminal());

    for terminal in [
        State::Discarded,
        State::Released { reference: None },
        State::Deleted,
        State::Error,
    ] {
        assert!(terminal.is_terminal(), "{}", terminal.as_str());
    }
}

#[test]
fn only_a_positive_observation_yields_the_witness() {
    assert!(Presence::Present.confirmed().is_some());
    assert!(Presence::Gone.confirmed().is_none());
    assert!(Presence::Unknown.confirmed().is_none());
}
