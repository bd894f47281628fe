use escrow::asset::{Asset, AssetKind};
use escrow::content::{Content, ContentType, MediaType};
use escrow::handover::{handover, releasable};
use escrow::state::{State, StateName};
use escrow::store::{
    columns_of, content_from_row, exclude_from_row, item_from_row, positive, source_from_row,
    state_from_row, ExcludeRow, ItemRow, RowError, SourceRow,
};

fn media_row() -> ItemRow {
    ItemRow {
        id: 7,
        source_id: 1,
        url: "https://www.youtube.com/watch?v=dQw4w9WgXcQ".to_owned(),
        content_type: "youtube_live".to_owned(),
        published_at: "2026-03-01T20:00:00+09:00".to_owned(),
        scheduled_start_at: None,
        state: "holding".to_owned(),
        state_since: "2026-03-02T00:30:00+09:00".to_owned(),
        hold_until: Some("2026-03-09T00:30:00+09:00".to_owned()),
        title: Some("○○の雑談配信".to_owned()),
        body: None,
        in_reply_to_url: None,
        quoted_url: None,
        release_reference: None,
    }
}

#[test]
fn a_media_row_reads_as_its_item() {
    let item = item_from_row(&media_row()).unwrap();
    assert_eq!(item.id.get(), 7);
    assert_eq!(item.content_type(), ContentType::YoutubeLive);
    assert_eq!(item.state.name(), StateName::Holding);
    assert_eq!(item.state.hold_until().unwrap().to_text(), "2026-03-09T00:30:00+09:00");
    assert_eq!(
        item.content,
        Content::Media { media_type: MediaType::YoutubeLive, title: "○○の雑談配信".to_owned() }
    );
}

#[test]
fn refuses_rows_that_break_the_null_rules() {
    let mut no_title = media_row();
    no_title.title = None;
    assert!(matches!(
        item_from_row(&no_title),
        Err(RowError::MissingColumn { column: "title", .. })
    ));

    let mut body_too = media_row();
    body_too.body = Some("x".to_owned());
    assert!(matches!(
        item_from_row(&body_too),
        Err(RowError::UnexpectedColumn { column: "body", .. })
    ));

    let mut reference = media_row();
    reference.release_reference = Some("r".to_owned());
    assert_eq!(
        state_from_row(&reference),
        Err(RowError::ReferenceWithoutRelease { id: 7, state: StateName::Holding })
    );

    let mut no_deadline = media_row();
    no_deadline.hold_until = None;
    assert_eq!(state_from_row(&no_deadline), Err(RowError::MissingDeadline { id: 7 }));

    let mut stray_deadline = media_row();
    stray_deadline.state = "kept".to_owned();
    assert_eq!(
        state_from_row(&stray_deadline),
        Err(RowError::DeadlineWithoutHold { id: 7, state: StateName::Kept })
    );

    let mut unknown = media_row();
    unknown.content_type = "tiktok".to_owned();
    assert_eq!(
        item_from_row(&unknown).unwrap_err(),
        RowError::UnknownContentType { id: 7, value: "tiktok".to_owned() }
    );
}

#[test]
fn refuses_a_post_without_a_body() {
    let mut post = media_row();
    post.content_type = "x_post".to_owned();
    post.title = None;
    post.url = "https://x.com/i/status/20".to_owned();
    assert!(matches!(
        content_from_row(&post, ContentType::XPost),
        Err(RowError::MissingColumn { column: "body", .. })
    ));
    post.body = Some("just setting up".to_owned());
    post.in_reply_to_url = Some("https://x.com/jack/status/19".to_owned());
    assert!(matches!(
        content_from_row(&post, ContentType::XPost),
        Err(RowError::UnnormalizedUrl { column: "in_reply_to_url", .. })
    ));
    post.in_reply_to_url = Some("https://x.com/i/status/19".to_owned());
    assert!(content_from_row(&post, ContentType::XPost).is_ok());
}

#[test]
fn a_url_that_is_not_canonical_is_refused() {
    let mut row = media_row();
    row.url = "https://youtu.be/dQw4w9WgXcQ".to_owned();
    assert!(matches!(item_from_row(&row), Err(RowError::UnnormalizedUrl { column: "url", .. })));
}

#[test]
fn counts_must_be_positive_and_fit() {
    assert_eq!(positive(None, "source", 1, "hold_days"), Ok(None));
    assert_eq!(positive(Some(7), "source", 1, "hold_days"), Ok(Some(7)));
    assert_eq!(
        positive(Some(0), "source", 1, "hold_days"),
        Err(RowError::OutOfRange { table: "source", id: 1, column: "hold_days", value: 0 })
    );
    assert!(positive(Some(4_294_967_296), "source", 1, "hold_days").is_err());
}

#[test]
fn a_source_row_reads_as_its_source() {
    let row = SourceRow {
        id: 3,
        person_id: 1,
        url: "https://www.youtube.com/channel/UCBR8-60-B28hp2BmDPdntcQ".to_owned(),
        enabled: 1,
        created_at: "2026-01-01T00:00:00+09:00".to_owned(),
        hold_days: Some(7),
        priority: 1,
        monitor_from: None,
        monitor_until: None,
    };
    let source = source_from_row(&row).unwrap();
    assert_eq!(source.hold_days, Some(7));
    assert!(source.enabled);

    let mut handle = row.clone();
    handle.url = "https://www.youtube.com/@handle".to_owned();
    assert!(matches!(source_from_row(&handle), Err(RowError::UnnormalizedSourceUrl { .. })));

    let mut half = row.clone();
    half.monitor_from = Some("2026-01-01T00:00:00+09:00".to_owned());
    assert_eq!(source_from_row(&half), Err(RowError::BadPeriod { id: 3 }));
}

#[test]
fn each_bad_source_column_has_its_error() {
    let row = SourceRow {
        id: 3,
        person_id: 1,
        url: "https://www.youtube.com/channel/UCBR8-60-B28hp2BmDPdntcQ".to_owned(),
        enabled: 1,
        created_at: "2026-01-01T00:00:00+09:00".to_owned(),
        hold_days: Some(7),
        priority: 1,
        monitor_from: None,
        monitor_until: None,
    };

    let mut created = row.clone();
    created.created_at = "yesterday".to_owned();
    assert_eq!(
        source_from_row(&created),
        Err(RowError::BadSourceTimestamp { id: 3, value: "yesterday".to_owned() })
    );

    let mut days = row.clone();
    days.hold_days = Some(0);
    assert_eq!(
        source_from_row(&days),
        Err(RowError::OutOfRange { table: "source", id: 3, column: "hold_days", value: 0 })
    );

    let mut priority = row.clone();
    priority.priority = -1;
    assert_eq!(
        source_from_row(&priority),
        Err(RowError::OutOfRange { table: "source", id: 3, column: "priority", value: -1 })
    );

    let mut from = row.clone();
    from.monitor_from = Some("soon".to_owned());
    from.monitor_until = Some("2026-02-01T00:00:00+09:00".to_owned());
    assert_eq!(
        source_from_row(&from),
        Err(RowError::BadTimestamp { id: 3, column: "monitor_from", value: "soon".to_owned() })
    );

    let mut until = row.clone();
    until.monitor_from = Some("2026-01-01T00:00:00+09:00".to_owned());
    until.monitor_until = Some("later".to_owned());
    assert_eq!(
        source_from_row(&until),
        Err(RowError::BadTimestamp { id: 3, column: "monitor_until", value: "later".to_owned() })
    );

    let mut backwards = row.clone();
    backwards.monitor_from = Some("2026-02-01T00:00:00+09:00".to_owned());
    backwards.monitor_until = Some("2026-01-01T00:00:00+09:00".to_owned());
    assert_eq!(source_from_row(&backwards), Err(RowError::BadPeriod { id: 3 }));
}

#[test]
fn round_trips_excludes() {
    let row = ExcludeRow { id: 1, source_id: None, content_type: "x_space".to_owned(), enabled: 1 };
    let exclude = exclude_from_row(&row).unwrap();
    assert_eq!(exclude.content_type, ContentType::XSpace);
    assert!(exclude.source_id.is_none());
    let bad = ExcludeRow { content_type: "x_spaces".to_owned(), ..row };
    assert_eq!(
        exclude_from_row(&bad),
        Err(RowError::UnknownExcludeType { id: 1, value: "x_spaces".to_owned() })
    );
}

#[test]
fn the_columns_written_read_back() {
    let item = item_from_row(&media_row()).unwrap();
    let columns = columns_of(&item.content, &item.state);
    let mut row = media_row();
    row.hold_until = columns.hold_until.clone();
    row.title = columns.title.clone();
    row.release_reference = columns.release_reference.clone();
    assert_eq!(item_from_row(&row).unwrap(), item);
}

#[test]
fn only_kept_items_are_handed_over() {
    let item = item_from_row(&media_row()).unwrap();
    assert!(releasable(&item.state).is_err());
    assert!(releasable(&State::Kept).is_ok());

    let assets = vec![
        Asset::new(AssetKind::Video, 1, "mp4".to_owned()),
        Asset::new(AssetKind::Transcript, 1, "vtt".to_owned()),
    ];
    let handed = handover(&item, "/m", &assets);
    assert_eq!(handed.id, 7);
    assert_eq!(handed.title.as_deref(), Some("○○の雑談配信"));
    assert_eq!(handed.body, None);
    assert_eq!(handed.state, "holding");
    assert_eq!(handed.content_type, "youtube_live");
    assert_eq!(handed.published_at, "2026-03-01T20:00:00+09:00");
    assert_eq!(handed.media_paths, ["/m/7/video.1.mp4"]);
    assert_eq!(handed.transcript_paths, ["/m/7/transcript.1.vtt"]);
}
