use escrow::intake::{source_terms, SourceTermsError};
use escrow::source::{Monitoring, MonitoringError};
use escrow::timestamp::{Timestamp, TimestampError};
use escrow::url::UrlError;

const CHANNEL: &str = "https://www.youtube.com/channel/UCBR8-60-B28hp2BmDPdntcQ";

#[test]
fn plain_terms_are_taken_as_given() {
    let terms = source_terms(CHANNEL, 3, None, None, Some(7)).unwrap();
    assert_eq!(terms.url.as_str(), CHANNEL);
    assert_eq!(terms.priority, 3);
    assert_eq!(terms.hold_days, Some(7));
    assert_eq!(terms.monitoring, Monitoring::Continuous);
}

#[test]
fn a_period_is_read_from_its_two_dates() {
    let terms = source_terms(
        "https://x.com/i/user/12",
        1,
        Some("2026-03-01T00:00:00+09:00"),
        Some("2026-03-08T00:00:00+09:00"),
        None,
    )
    .unwrap();
    assert_eq!(
        terms.monitoring,
        Monitoring::Period {
            from: Timestamp::parse("2026-03-01T00:00:00+09:00").unwrap(),
            until: Timestamp::parse("2026-03-08T00:00:00+09:00").unwrap(),
        }
    );
    assert_eq!(terms.hold_days, None);
}

#[test]
fn a_source_given_by_handle_is_refused() {
    let refused = source_terms("https://www.youtube.com/@example", 1, None, None, None);
    assert!(matches!(refused, Err(SourceTermsError::Url(UrlError::UnresolvedSource { .. }))));
}

#[test]
fn zero_weight_and_zero_days_are_refused() {
    assert_eq!(source_terms(CHANNEL, 0, None, None, None), Err(SourceTermsError::Priority));
    assert_eq!(source_terms(CHANNEL, 1, None, None, Some(0)), Err(SourceTermsError::HoldDays));
    assert_eq!(source_terms(CHANNEL, 0, None, None, Some(0)), Err(SourceTermsError::Priority));
}

#[test]
fn a_date_that_does_not_read_is_named() {
    assert_eq!(
        source_terms(CHANNEL, 1, Some("きのう"), Some("2026-03-08T00:00:00+09:00"), None),
        Err(SourceTermsError::Timestamp(TimestampError("きのう".to_owned())))
    );
    assert_eq!(
        source_terms(CHANNEL, 1, Some("2026-03-01T00:00:00+09:00"), Some("あした"), None),
        Err(SourceTermsError::Timestamp(TimestampError("あした".to_owned())))
    );
}

#[test]
fn a_period_needs_both_ends_in_order() {
    assert_eq!(
        source_terms(CHANNEL, 1, Some("2026-03-01T00:00:00+09:00"), None, None),
        Err(SourceTermsError::Monitoring(MonitoringError::HalfOpen))
    );
    assert_eq!(
        source_terms(
            CHANNEL,
            1,
            Some("2026-03-08T00:00:00+09:00"),
            Some("2026-03-01T00:00:00+09:00"),
            None
        ),
        Err(SourceTermsError::Monitoring(MonitoringError::NotOrdered))
    );
}
