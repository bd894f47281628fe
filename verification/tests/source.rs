use escrow::content::ContentType;
use escrow::source::{
    Exclude, ExcludeId, Monitoring, MonitoringError, PersonId, Source, SourceId,
};
use escrow::state::Hold;
use escrow::timestamp::Timestamp;
use escrow::url::normalize_source;

fn source(hold_days: Option<u32>) -> Source {
    Source {
        id: SourceId::new(1),
        person_id: PersonId::new(1),
        url: normalize_source("https://www.youtube.com/channel/UCBR8-60-B28hp2BmDPdntcQ").unwrap(),
        enabled: true,
        created_at: Timestamp::parse("2026-01-01T00:00:00+09:00").unwrap(),
        hold_days,
        priority: 1,
        monitoring: Monitoring::Continuous,
    }
}

fn at(text: &str) -> Timestamp {
    Timestamp::parse(text).expect(text)
}

#[test]
fn an_empty_period_means_watching_without_end() {
    assert_eq!(Monitoring::new(None, None), Ok(Monitoring::Continuous));
}

#[test]
fn a_period_round_trips_through_its_two_columns() {
    let from = at("2026-09-01T00:00:00+09:00");
    let until = at("2026-09-08T00:00:00+09:00");

    let monitoring = Monitoring::new(Some(from), Some(until)).unwrap();
    assert_eq!(monitoring, Monitoring::Period { from, until });
    assert_eq!(monitoring.columns(), (Some(from), Some(until)));
    assert_eq!(Monitoring::Continuous.columns(), (None, None));
}

#[test]
fn half_of_a_period_is_not_a_period() {
    let at = at("2026-09-01T00:00:00+09:00");

    assert_eq!(Monitoring::new(Some(at), None), Err(MonitoringError::HalfOpen));
    assert_eq!(Monitoring::new(None, Some(at)), Err(MonitoringError::HalfOpen));
}

#[test]
fn a_period_that_ends_before_it_starts_is_not_a_period() {
    let from = at("2026-09-08T00:00:00+09:00");
    let until = at("2026-09-01T00:00:00+09:00");

    assert_eq!(Monitoring::new(Some(from), Some(until)), Err(MonitoringError::NotOrdered));
    assert_eq!(Monitoring::new(Some(from), Some(from)), Err(MonitoringError::NotOrdered));
}

#[test]
fn the_deadline_is_fixed_at_the_moment_of_acquisition() {
    let at = Timestamp::parse("2026-03-01T22:30:00+09:00").unwrap();

    assert_eq!(
        source(Some(7)).hold_from(at).unwrap(),
        Hold::Until(Timestamp::parse("2026-03-08T22:30:00+09:00").unwrap()),
    );
    assert_eq!(source(None).hold_from(at).unwrap(), Hold::NoDeadline);
}

#[test]
fn a_span_outside_the_calendar_is_not_the_same_as_no_deadline() {
    let at = Timestamp::parse("2026-03-01T22:30:00+09:00").unwrap();
    let mut absurd = source(Some(7));
    absurd.hold_days = Some(u32::MAX);

    assert!(absurd.hold_from(at).is_err());
}

#[test]
fn a_period_is_half_open() {
    let from = Timestamp::parse("2026-09-01T00:00:00+09:00").unwrap();
    let until = Timestamp::parse("2026-09-08T00:00:00+09:00").unwrap();
    let period = Monitoring::new(Some(from), Some(until)).unwrap();

    assert!(period.covers(from), "the start is inside");
    assert!(period.covers(Timestamp::parse("2026-09-07T23:59:59+09:00").unwrap()));
    assert!(!period.covers(until), "the end is outside");
    assert!(!period.covers(Timestamp::parse("2026-08-31T23:59:59+09:00").unwrap()));

    assert!(Monitoring::Continuous.covers(from), "without a period, always inside");
}

fn exclude(source_id: Option<i64>, enabled: bool) -> Exclude {
    Exclude {
        id: ExcludeId::new(1),
        source_id: source_id.map(SourceId::new),
        content_type: ContentType::XSpace,
        enabled,
    }
}

#[test]
fn a_scoped_exclude_only_covers_its_own_source() {
    let exclude = exclude(Some(1), true);

    assert!(exclude.covers(SourceId::new(1), ContentType::XSpace));
    assert!(!exclude.covers(SourceId::new(2), ContentType::XSpace));
    assert!(!exclude.covers(SourceId::new(1), ContentType::XPost));
}

#[test]
fn source_a_scoped_exclude_only_covers_its_own_source() {
    a_scoped_exclude_only_covers_its_own_source();
}

#[test]
fn a_shared_exclude_covers_every_source() {
    let exclude = exclude(None, true);

    assert!(exclude.covers(SourceId::new(1), ContentType::XSpace));
    assert!(exclude.covers(SourceId::new(99), ContentType::XSpace));
    assert!(!exclude.covers(SourceId::new(1), ContentType::YoutubeLive));
}

#[test]
fn source_a_shared_exclude_covers_every_source() {
    a_shared_exclude_covers_every_source();
}

#[test]
fn a_disabled_exclude_covers_nothing() {
    let exclude = exclude(None, false);

    assert!(!exclude.covers(SourceId::new(1), ContentType::XSpace));
}

#[test]
fn source_a_disabled_exclude_covers_nothing() {
    a_disabled_exclude_covers_nothing();
}

#[test]
fn hold_policy_follows_hold_days() {
    let acquired = at("2026-03-01T20:00:00+09:00");
    assert_eq!(
        source(Some(7)).hold_from(acquired),
        Ok(Hold::Until(at("2026-03-08T20:00:00+09:00")))
    );
    assert_eq!(source(None).hold_from(acquired), Ok(Hold::NoDeadline));
}
