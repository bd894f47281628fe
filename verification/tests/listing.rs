use escrow::handover::Handover;
use escrow::listing::{
    first_line_of, headline, newest_first, shown, why, FfiError, Headline, Listed, HEADLINE_CHARS,
};
use escrow::timestamp::Timestamp;
use escrow::screen::{selected_person, update, Command, Listing, Message, Opened, Screen, Selection};
use escrow::source::{Person, PersonId};

#[test]
fn a_long_title_is_shown_in_full() {
    let title = "あ".repeat(HEADLINE_CHARS + 10);
    assert_eq!(shown(&Headline::Title(title.clone())), title);
}

#[test]
fn a_long_opening_is_cut_at_a_character_boundary() {
    let opening = "あ".repeat(HEADLINE_CHARS + 10);
    let shown = shown(&Headline::Opening(opening));

    assert_eq!(shown.chars().count(), HEADLINE_CHARS + 1);
    assert!(shown.ends_with('…'));
}

#[test]
fn an_opening_that_fits_keeps_its_ending() {
    let opening = "あ".repeat(HEADLINE_CHARS);
    assert_eq!(shown(&Headline::Opening(opening.clone())), opening);
}

#[test]
fn the_headline_comes_from_whichever_field_the_shape_fills() {
    assert_eq!(headline(Some("○○の雑談配信"), None), Headline::Title("○○の雑談配信".to_owned()));
    assert_eq!(
        headline(None, Some("明日の配信は21時から。")),
        Headline::Opening("明日の配信は21時から。".to_owned())
    );
    assert_eq!(headline(None, None), Headline::Opening(String::new()));
}

#[test]
fn a_body_contributes_only_its_first_line() {
    assert_eq!(
        headline(None, Some("明日の配信は21時から。\n遅れたらごめん")),
        Headline::Opening("明日の配信は21時から。".to_owned())
    );
    assert_eq!(first_line_of("a\r\nb"), "a");
    assert_eq!(first_line_of("a\rb"), "a\rb");
    assert_eq!(first_line_of(""), "");
}

#[test]
fn a_long_body_keeps_its_whole_first_line() {
    let body = "あ".repeat(100);
    assert_eq!(headline(None, Some(&body)), Headline::Opening(body));
}

#[test]
fn a_failure_reads_down_to_its_cause() {
    let chain = vec![
        "設定を読めない".to_owned(),
        "設定ファイルを TOML として読めない".to_owned(),
    ];
    assert_eq!(why(&chain), "設定を読めない: 設定ファイルを TOML として読めない");
    assert_eq!(why(&vec!["only".to_owned()]), "only");
}

fn persons() -> Vec<Person> {
    vec![
        Person { id: PersonId::new(1), name: "○○".to_owned() },
        Person { id: PersonId::new(2), name: "□□".to_owned() },
    ]
}

#[test]
fn selecting_a_person_loads_their_items() {
    let mut screen: Screen<u32> = Screen::Opening;
    assert_eq!(
        update(&mut screen, Message::Opened(Ok(Opened { persons: persons() }))),
        Command::Nothing
    );
    assert_eq!(
        update(&mut screen, Message::Selected(Selection::Person(PersonId::new(1)))),
        Command::LoadItems(PersonId::new(1))
    );
    update(&mut screen, Message::Listed(PersonId::new(1), Ok(vec![7, 8])));
    match &screen {
        Screen::Ready { listing, selection, .. } => {
            assert_eq!(*selection, Selection::Person(PersonId::new(1)));
            assert_eq!(*listing, Listing::Loaded(vec![7, 8]));
        }
        other => panic!("not ready: {other:?}"),
    }
}

#[test]
fn a_late_listing_for_someone_else_is_dropped() {
    let mut screen: Screen<u32> = Screen::Opening;
    update(&mut screen, Message::Opened(Ok(Opened { persons: persons() })));
    update(&mut screen, Message::Selected(Selection::Person(PersonId::new(1))));
    update(&mut screen, Message::Selected(Selection::Person(PersonId::new(2))));
    update(&mut screen, Message::Listed(PersonId::new(1), Ok(vec![1])));
    match &screen {
        Screen::Ready { listing, .. } => assert_eq!(*listing, Listing::Loading),
        other => panic!("not ready: {other:?}"),
    }
}

#[test]
fn a_ledger_that_cannot_open_says_why() {
    let mut screen: Screen<u32> = Screen::Opening;
    update(&mut screen, Message::Opened(Err("no home".to_owned())));
    assert_eq!(screen, Screen::Unavailable("no home".to_owned()));
    assert_eq!(
        update(&mut screen, Message::Selected(Selection::Settings)),
        Command::Nothing
    );
    assert_eq!(screen, Screen::Unavailable("no home".to_owned()));
}

#[test]
fn the_selected_person_is_found_by_id() {
    let persons = persons();
    assert_eq!(
        selected_person(&persons, Selection::Person(PersonId::new(2))).map(|p| p.name.as_str()),
        Some("□□")
    );
    assert!(selected_person(&persons, Selection::Person(PersonId::new(9))).is_none());
    assert!(selected_person(&persons, Selection::Dashboard).is_none());
}

fn causes() -> Vec<String> {
    vec![
        "設定を読めない".to_owned(),
        "設定ファイルを TOML として読めない".to_owned(),
    ]
}

#[test]
fn app_a_failure_reads_down_to_its_cause() {
    assert_eq!(why(&causes()), "設定を読めない: 設定ファイルを TOML として読めない");
}

#[test]
fn lib_a_failure_reads_down_to_its_cause() {
    let failure = FfiError::from_causes(&causes());
    assert_eq!(
        failure.message(),
        "設定を読めない: 設定ファイルを TOML として読めない"
    );
    assert_eq!(
        failure,
        FfiError::Failed("設定を読めない: 設定ファイルを TOML として読めない".to_owned())
    );
}

fn at(text: &str) -> Timestamp {
    Timestamp::parse(text).expect(text)
}

fn handed(title: Option<&str>, body: Option<&str>, published_at: &str) -> Handover {
    Handover {
        id: 42,
        title: title.map(str::to_owned),
        body: body.map(str::to_owned),
        url: "https://www.youtube.com/watch?v=dQw4w9WgXcQ".to_owned(),
        content_type: "youtube_live".to_owned(),
        state: "kept".to_owned(),
        published_at: at(published_at).to_text(),
        media_paths: Vec::new(),
        transcript_paths: Vec::new(),
    }
}

fn listed(title: Option<&str>, body: Option<&str>, published_at: &str) -> Listed {
    Listed::new(at(published_at), &handed(title, body, published_at))
}

#[test]
fn the_date_keeps_the_offset_it_was_published_with() {
    let jst = listed(Some("○○の雑談配信"), None, "2026-03-01T08:00:00+09:00");
    assert_eq!(jst.published_on(), "2026-03-01");

    let utc = listed(Some("○○の雑談配信"), None, "2026-02-28T23:00:00+00:00");
    assert_eq!(utc.published_on(), "2026-02-28");
}

#[test]
fn the_state_and_the_content_type_pass_through_untouched() {
    let one = listed(Some("○○の雑談配信"), None, "2026-03-01T20:00:00+09:00");

    assert_eq!(one.state(), "kept");
    assert_eq!(one.content_type(), "youtube_live");
}

#[test]
fn the_newest_item_comes_first() {
    let listing = vec![
        listed(Some("古い"), None, "2026-02-28T23:00:00+00:00"),
        listed(Some("真ん中"), None, "2026-03-01T20:00:00+09:00"),
        listed(Some("新しい"), None, "2026-03-01T12:00:00+00:00"),
    ];
    let listing = newest_first(listing);

    let headlines: Vec<&Headline> = listing.iter().map(Listed::headline).collect();
    assert_eq!(
        headlines,
        [
            &Headline::Title("新しい".to_owned()),
            &Headline::Title("真ん中".to_owned()),
            &Headline::Title("古い".to_owned()),
        ]
    );
}

#[test]
fn lines_of_the_same_instant_keep_their_order() {
    let listing = vec![
        listed(Some("一"), None, "2026-03-01T20:00:00+09:00"),
        listed(Some("後"), None, "2026-03-02T20:00:00+09:00"),
        listed(Some("二"), None, "2026-03-01T11:00:00+00:00"),
        listed(Some("三"), None, "2026-03-01T20:00:00+09:00"),
    ];
    let listing = newest_first(listing);

    let headlines: Vec<&Headline> = listing.iter().map(Listed::headline).collect();
    assert_eq!(
        headlines,
        [
            &Headline::Title("後".to_owned()),
            &Headline::Title("一".to_owned()),
            &Headline::Title("二".to_owned()),
            &Headline::Title("三".to_owned()),
        ]
    );
}

#[test]
fn a_post_line_carries_the_opening_of_its_body() {
    let post = listed(None, Some("明日の配信は21時から。\n詳しくは後で"), "2026-03-01T12:00:00+09:00");
    assert_eq!(post.headline(), &Headline::Opening("明日の配信は21時から。".to_owned()));
}
