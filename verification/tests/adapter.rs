use escrow::adapter::gallerydl::{self, Entry, TweetMetadata};
use escrow::adapter::invocation::{Completed, Invocation};
use escrow::adapter::route::{sighting_step, Acquirer, Adapters, Discoverer, SightingStep};
use escrow::adapter::rss::{self, FeedEntry};
use escrow::adapter::tools::{Resolution, Resolver, Tool};
use escrow::adapter::whisper::{self, transcript_asset};
use escrow::adapter::ytdlp::{self, Tab, VideoMetadata, YtDlp};
use escrow::adapter::AdapterError;
use escrow::config::{Browser, Language};
use escrow::content::{Content, ContentType, MediaType, Platform};
use escrow::liveness::Presence;
use escrow::state::MediaPresence;
use escrow::timestamp::Timestamp;
use escrow::url::{self, NormalizedUrl, TypeHint};

fn video() -> NormalizedUrl {
    url::normalize_item("https://www.youtube.com/watch?v=dQw4w9WgXcQ").unwrap().0
}

fn failed(stderr: &str) -> Completed {
    Completed { success: false, stdout: String::new(), stderr: stderr.to_owned() }
}

#[test]
fn lib_every_configurable_browser_works_with_every_adapter() {
    let adapters: [(&str, Vec<Browser>); 2] = [
        ("yt-dlp", ytdlp::supported_browsers()),
        ("gallery-dl", gallerydl::supported_browsers()),
    ];

    for browser in Browser::every() {
        for (name, supported) in &adapters {
            assert!(supported.contains(&browser), "{name} does not take {browser:?}");
        }
    }
}

#[test]
fn route_a_type_belongs_to_exactly_one_platform() {
    for content_type in ContentType::every() {
        let expected = if content_type.as_str().starts_with("youtube") {
            Platform::Youtube
        } else {
            Platform::X
        };
        assert_eq!(content_type.platform(), expected, "{content_type:?}");
    }
}

fn adapters() -> Adapters {
    Adapters::new(
        YtDlp::new("/bin/yt-dlp".to_owned(), Browser::Firefox),
        gallerydl::GalleryDl::new("/bin/gallery-dl".to_owned(), Browser::Firefox),
    )
}

#[test]
fn route_acquisition_follows_the_table() {
    let adapters = adapters();
    for (content_type, expected) in [
        (ContentType::YoutubeShorts, Acquirer::YtDlp),
        (ContentType::YoutubeVideo, Acquirer::YtDlp),
        (ContentType::YoutubeLive, Acquirer::YtDlp),
        (ContentType::XPost, Acquirer::GalleryDl),
        (ContentType::XSpace, Acquirer::YtDlp),
        (ContentType::XBroadcast, Acquirer::YtDlp),
    ] {
        assert_eq!(adapters.acquirer(content_type), expected, "{content_type:?}");
    }
}

#[test]
fn route_discovery_follows_the_table() {
    let adapters = adapters();
    assert_eq!(adapters.discoverer(Platform::Youtube), Discoverer::Youtube);
    assert_eq!(adapters.discoverer(Platform::X), Discoverer::GalleryDl);
}

#[test]
fn liveness_checks_follow_the_table() {
    for content_type in ContentType::every() {
        assert_eq!(Adapters::has_prober(content_type), content_type != ContentType::XPost);
    }
}

#[test]
fn an_absent_path_finds_nothing() {
    let resolver = Resolver::new(None, &[]);
    assert_eq!(resolver.missing().len(), Tool::every().len());
}

#[test]
fn resolve_all_covers_every_tool() {
    let resolver = Resolver::new(None, &[]);
    let all = resolver.resolve_all();

    assert_eq!(all.len(), Tool::every().len());
    assert_eq!(all.iter().map(|(tool, _)| *tool).collect::<Vec<_>>(), Tool::every().to_vec());
}

#[test]
fn the_search_path_is_path_then_extra_directories() {
    let resolver = Resolver::new(
        Some("/usr/bin::/opt/homebrew/bin"),
        &["/Users/t/bin".to_owned()],
    );
    assert_eq!(
        resolver.directories(),
        ["/usr/bin", "", "/opt/homebrew/bin", "/Users/t/bin"]
    );
}

#[test]
fn a_missing_model_file_is_not_found() {
    assert_eq!(
        Resolution::of_file("/nonexistent/ggml-large-v3-turbo.bin"),
        Resolution::NotFound
    );
    assert!(!Resolution::NotFound.is_found());
    assert_eq!(Resolution::Found("/m.bin".to_owned()).path(), Some("/m.bin"));
}

#[test]
fn the_output_follows_the_naming_rule() {
    assert_eq!(transcript_asset(1).file_name(), "transcript.1.vtt");
    assert_eq!(transcript_asset(3).file_name(), "transcript.3.vtt");
}

#[test]
fn the_model_and_the_language_are_always_passed() {
    let invocation = whisper::transcribe_argv(
        "/opt/homebrew/bin/whisper-cli",
        "/models/ggml-large-v3-turbo.bin",
        &Language::Code("ja".to_owned()),
        "/tmp/audio.wav",
        "/m/42/transcript.1",
    );
    let args = invocation.args_as_str().unwrap();
    assert!(args.windows(2).any(|w| w == ["-m", "/models/ggml-large-v3-turbo.bin"]));
    assert!(args.windows(2).any(|w| w == ["-l", "ja"]));
    assert!(args.contains(&"-ovtt"));
    assert!(args.windows(2).any(|w| w == ["-of", "/m/42/transcript.1"]));
}

#[test]
fn the_conversion_asks_for_what_the_transcriber_can_read() {
    let invocation = whisper::convert_argv(
        "/opt/homebrew/bin/ffmpeg",
        "/m/42/video.1.mp4",
        "/tmp/audio.wav",
    );
    let args = invocation.args_as_str().unwrap();
    assert!(args.windows(2).any(|w| w == ["-ar", "16000"]));
    assert!(args.windows(2).any(|w| w == ["-ac", "1"]));
    assert!(args.windows(2).any(|w| w == ["-c:a", "pcm_s16le"]));
    assert!(args.contains(&"-vn"));
}

#[test]
fn a_transcription_that_wrote_nothing_is_a_reading_failure() {
    let ok = Completed { success: true, stdout: String::new(), stderr: String::new() };
    assert_eq!(whisper::transcript_stem("/m/42", 1), "/m/42/transcript.1");
    assert!(whisper::after_conversion(&ok).is_none());
    assert_eq!(
        whisper::after_transcription(&ok, false, 2),
        Err(AdapterError::Parse {
            program: "whisper-cli".to_owned(),
            detail: "成功したが transcript.2.vtt が無い".to_owned(),
        })
    );
    assert_eq!(whisper::after_transcription(&ok, true, 2), Ok(transcript_asset(2)));
}

#[test]
fn ytdlp_presence_follows_the_asymmetry() {
    let present = Completed { success: true, stdout: "public\n".to_owned(), stderr: String::new() };
    assert_eq!(ytdlp::parse_probe(&present), Presence::Present);

    let gone = failed("ERROR: [youtube] aaa: Video unavailable");
    assert_eq!(ytdlp::parse_probe(&gone), Presence::Gone);

    for stderr in [
        "ERROR: Unable to download webpage: Failed to resolve",
        "ERROR: なにか知らない文言",
        "",
    ] {
        assert_eq!(ytdlp::parse_probe(&failed(stderr)), Presence::Unknown, "{stderr}");
    }
}

#[test]
fn ytdlp_an_empty_answer_is_not_a_confirmation() {
    let empty = Completed { success: true, stdout: "  \n".to_owned(), stderr: String::new() };
    assert_eq!(ytdlp::parse_probe(&empty), Presence::Unknown);
}

#[test]
fn expired_cookies_are_their_own_failure() {
    let error = ytdlp::classify(&failed("ERROR: Sign in to confirm you're not a bot"), &video());
    assert!(matches!(error, AdapterError::Unauthenticated { .. }));
    assert_eq!(error.presence(), Presence::Unknown);
}

#[test]
fn unusable_cookies_are_their_own_failure() {
    for stderr in [
        "ERROR: Sign in to confirm you're not a bot",
        "ERROR: could not find opera cookies database in \"/Users/t/Library/…\"",
    ] {
        let error = ytdlp::classify(&failed(stderr), &video());
        assert!(matches!(error, AdapterError::Unauthenticated { .. }), "{stderr}");
        assert_eq!(error.presence(), Presence::Unknown);
    }
}

#[test]
fn ytdlp_a_gone_item_is_not_a_transient_failure() {
    let error = ytdlp::classify(&failed("ERROR: [youtube] x: Video unavailable"), &video());
    assert!(matches!(error, AdapterError::Unavailable { .. }));
    assert_eq!(error.presence(), Presence::Gone);
}

#[test]
fn other_failures_are_passing_and_carry_the_tail() {
    let error = ytdlp::classify(&failed("  ERROR: network  "), &video());
    assert_eq!(
        error,
        AdapterError::Transient { program: "yt-dlp".to_owned(), detail: "ERROR: network".to_owned() }
    );
}

#[test]
fn the_listing_call_asks_for_a_flat_json_listing() {
    let channel = url::normalize_source("https://www.youtube.com/channel/UCBR8-60-B28hp2BmDPdntcQ").unwrap();
    let invocation = ytdlp::list_argv("/opt/homebrew/bin/yt-dlp", &channel, Tab::Streams);
    assert_eq!(invocation.program_name(), "yt-dlp");
    assert_eq!(
        invocation.args_as_str().unwrap(),
        [
            "--ignore-config",
            "--no-warnings",
            "--flat-playlist",
            "--dump-json",
            "https://www.youtube.com/channel/UCBR8-60-B28hp2BmDPdntcQ/streams",
        ]
    );
}

#[test]
fn ytdlp_the_download_call_records_from_the_start_and_names_the_output() {
    let invocation = ytdlp::download_argv("/bin/yt-dlp", &video(), "/Movies/escrow/42", Browser::Safari);
    let args = invocation.args_as_str().unwrap();
    assert!(args.contains(&"--live-from-start"));
    assert!(!args.iter().any(|a| a.starts_with("--wait-for-video")));
    assert!(args.contains(&"video.1.%(ext)s"));
    assert!(args.contains(&"/Movies/escrow/42"));
    assert!(args.windows(2).any(|w| w == ["--cookies-from-browser", "safari"]));
}

#[test]
fn discovery_never_sends_cookies() {
    let invocation = ytdlp::schedule_argv("/bin/yt-dlp", &video());
    let args = invocation.args_as_str().unwrap();
    assert!(!args.iter().any(|a| a.contains("cookie")), "{args:?}");
}

fn meta(timestamp: Option<i64>, release: Option<i64>, live_status: Option<&str>) -> VideoMetadata {
    VideoMetadata {
        webpage_url: "https://www.youtube.com/watch?v=dQw4w9WgXcQ".to_owned(),
        title: "Never Gonna Give You Up".to_owned(),
        timestamp,
        release_timestamp: release,
        live_status: live_status.map(str::to_owned),
    }
}

#[test]
fn ytdlp_reads_the_metadata_of_one_item() {
    let found = ytdlp::found_of(meta(Some(1256453853), None, Some("not_live")), MediaType::YoutubeVideo).unwrap();
    assert_eq!(found.url.as_str(), "https://www.youtube.com/watch?v=dQw4w9WgXcQ");
    assert_eq!(found.published_at.to_text(), "2009-10-25T06:57:33+00:00");
    assert_eq!(found.content_type(), ContentType::YoutubeVideo);
    assert_eq!(
        found.content,
        Content::Media {
            media_type: MediaType::YoutubeVideo,
            title: "Never Gonna Give You Up".to_owned()
        }
    );
    assert_eq!(found.media, MediaPresence::Present);
}

#[test]
fn ytdlp_falls_back_to_the_scheduled_time() {
    let found = ytdlp::found_of(meta(None, Some(1256453853), None), MediaType::YoutubeLive).unwrap();
    assert_eq!(found.published_at.to_text(), "2009-10-25T06:57:33+00:00");
    assert!(matches!(
        ytdlp::found_of(meta(None, None, None), MediaType::YoutubeVideo),
        Err(AdapterError::Parse { .. })
    ));
}

#[test]
fn live_status_decides_video_or_stream() {
    for (status, expected) in [
        (Some("is_upcoming"), MediaType::YoutubeLive),
        (Some("is_live"), MediaType::YoutubeLive),
        (Some("post_live"), MediaType::YoutubeLive),
        (Some("was_live"), MediaType::YoutubeLive),
        (Some("not_live"), MediaType::YoutubeVideo),
        (None, MediaType::YoutubeVideo),
    ] {
        assert_eq!(meta(Some(1), None, status).media_type(), Ok(expected), "{status:?}");
    }
    assert!(matches!(
        meta(Some(1), None, Some("is_weird")).media_type(),
        Err(AdapterError::Parse { .. })
    ));
}

#[test]
fn only_an_upcoming_slot_carries_a_start_time() {
    let upcoming = ytdlp::schedule_of(&meta(None, Some(1256453853), Some("is_upcoming"))).unwrap();
    assert_eq!(upcoming.media_type, MediaType::YoutubeLive);
    assert_eq!(
        upcoming.scheduled_start_at.map(|t| t.to_text()),
        Some("2009-10-25T06:57:33+00:00".to_owned())
    );
    let live = ytdlp::schedule_of(&meta(None, Some(1256453853), Some("is_live"))).unwrap();
    assert_eq!(live.scheduled_start_at, None);
}

fn source_url() -> NormalizedUrl {
    url::normalize_source("https://x.com/i/user/12").unwrap()
}

#[test]
fn the_timeline_url_is_derived_from_the_canonical_identity() {
    assert_eq!(gallerydl::timeline_url(&source_url()).unwrap(), "https://x.com/id:12/timeline");
}

#[test]
fn a_youtube_source_is_not_a_timeline_here() {
    let youtube = url::normalize_source("https://www.youtube.com/channel/UCBR8-60-B28hp2BmDPdntcQ").unwrap();
    assert_eq!(gallerydl::timeline_url(&youtube), None);
}

#[test]
fn login_problems_are_their_own_failure() {
    let completed = failed("[twitter][error] Login required to access this resource");
    assert!(matches!(gallerydl::classify(&completed), AdapterError::Unauthenticated { .. }));
    assert_eq!(gallerydl::classify(&completed).presence(), Presence::Unknown);
}

#[test]
fn the_listing_call_asks_for_what_number_5_decided() {
    let invocation =
        gallerydl::timeline_argv("/bin/gallery-dl", "https://x.com/id:12/timeline", Browser::Firefox);
    let args = invocation.args_as_str().unwrap();
    assert!(args.contains(&"extractor.twitter.text-tweets=true"));
    assert!(args.contains(&"extractor.twitter.cards=ytdl"));
    assert!(args.contains(&"extractor.twitter.quoted=false"));
    assert!(args.contains(&"extractor.twitter.retweets=false"));
    assert!(args.contains(&"--dump-json"));
}

fn tweet(id: i64, date: &str, reply: i64) -> TweetMetadata {
    TweetMetadata {
        tweet_id: id,
        date: date.to_owned(),
        content: "just setting up my twttr".to_owned(),
        reply_id: reply,
        quoted_id: 0,
    }
}

#[test]
fn a_timeline_reads_posts_and_their_files() {
    let entries = vec![
        Entry::Post(tweet(20, "2006-03-21 20:50:14", 0)),
        Entry::File,
        Entry::Post(tweet(21, "2006-03-21 21:00:00", 20)),
    ];
    let found = gallerydl::parse_timeline(Ok(entries)).unwrap();
    assert_eq!(found.len(), 2);
    assert_eq!(found[0].url.as_str(), "https://x.com/i/status/20");
    assert_eq!(found[0].published_at.to_text(), "2006-03-21T20:50:14+00:00");
    assert_eq!(found[0].media, MediaPresence::Present);
    assert_eq!(found[1].media, MediaPresence::Absent);
    match &found[1].content {
        Content::Post { in_reply_to, .. } => {
            assert_eq!(in_reply_to.as_ref().map(|u| u.as_str()), Some("https://x.com/i/status/20"))
        }
        other => panic!("a post, not {other:?}"),
    }
}

#[test]
fn a_file_before_any_post_is_a_reading_failure() {
    assert!(matches!(
        gallerydl::parse_timeline(Ok(vec![Entry::File])),
        Err(AdapterError::Parse { .. })
    ));
    assert!(matches!(
        gallerydl::parse_timeline(Ok(vec![Entry::Post(tweet(20, "きのう", 0))])),
        Err(AdapterError::Parse { .. })
    ));
    assert!(matches!(
        gallerydl::parse_timeline(Ok(vec![Entry::Unknown(99)])),
        Err(AdapterError::Parse { .. })
    ));
}

#[test]
fn an_auth_failure_inside_the_output_is_not_an_empty_timeline() {
    let auth = gallerydl::parse_timeline(Ok(vec![Entry::Failed {
        error: "AuthRequired".to_owned(),
        message: "No 'auth_token' cookie available".to_owned(),
    }]))
    .unwrap_err();
    assert!(matches!(auth, AdapterError::Unauthenticated { .. }), "{auth:?}");
    assert_eq!(auth.presence(), Presence::Unknown);
}

#[test]
fn other_failures_in_the_output_are_transient() {
    let other = gallerydl::parse_timeline(Ok(vec![Entry::Failed {
        error: "HttpError".to_owned(),
        message: "503 Service Unavailable".to_owned(),
    }]))
    .unwrap_err();
    assert_eq!(
        other,
        AdapterError::Transient {
            program: "gallery-dl".to_owned(),
            detail: "HttpError: 503 Service Unavailable".to_owned()
        }
    );
    assert_eq!(other.presence(), Presence::Unknown);
}

#[test]
fn downloaded_files_are_renamed_into_our_scheme() {
    let names = vec!["2.jpg".to_owned(), "3.mp4".to_owned(), "1.jpg".to_owned()];
    let placement = gallerydl::place_downloads(names).unwrap();
    let renames: Vec<(String, String)> =
        placement.renames.iter().map(|(from, a)| (from.clone(), a.file_name())).collect();
    assert_eq!(
        renames,
        [
            ("1.jpg".to_owned(), "image.1.jpg".to_owned()),
            ("2.jpg".to_owned(), "image.2.jpg".to_owned()),
            ("3.mp4".to_owned(), "video.1.mp4".to_owned()),
        ]
    );
    let names: Vec<String> = placement.assets.iter().map(|a| a.file_name()).collect();
    assert_eq!(names, ["video.1.mp4", "image.1.jpg", "image.2.jpg"]);
}

#[test]
fn unknown_extensions_are_left_alone() {
    let placement = gallerydl::place_downloads(vec!["1.JPG".to_owned(), "2.part".to_owned()]).unwrap();
    assert_eq!(placement.assets.len(), 1);
    assert_eq!(placement.assets[0].file_name(), "image.1.jpg");
    assert!(matches!(
        gallerydl::place_downloads(vec!["notes".to_owned()]),
        Err(AdapterError::Parse { .. })
    ));
}

#[test]
fn the_stderr_tail_stays_short() {
    let long = Completed { success: false, stdout: String::new(), stderr: "x".repeat(2000) };
    assert!(long.stderr_tail().chars().count() <= 402);

    let short = Completed { success: false, stdout: String::new(), stderr: "  ERROR: nope  ".to_owned() };
    assert_eq!(short.stderr_tail(), "ERROR: nope");
}

#[test]
fn builds_an_argument_list_without_running_anything() {
    let invocation = Invocation::new("/opt/homebrew/bin/yt-dlp")
        .arg("--simulate")
        .args(&["--print", "%(availability)s"])
        .arg("https://www.youtube.com/watch?v=dQw4w9WgXcQ");

    assert_eq!(invocation.program_name(), "yt-dlp");
    assert_eq!(
        invocation.args_as_str().unwrap(),
        ["--simulate", "--print", "%(availability)s", "https://www.youtube.com/watch?v=dQw4w9WgXcQ"]
    );
}

#[test]
fn the_feed_lives_under_the_channels_immutable_id() {
    let channel = url::normalize_source("https://www.youtube.com/channel/UCBR8-60-B28hp2BmDPdntcQ").unwrap();
    assert_eq!(
        rss::feed_url(&channel),
        Some("https://www.youtube.com/feeds/videos.xml?channel_id=UCBR8-60-B28hp2BmDPdntcQ".to_owned())
    );
    assert_eq!(rss::feed_url(&source_url()), None);
}

#[test]
fn retry_after_is_read_only_in_its_seconds_form() {
    assert_eq!(rss::retry_after(Some("120")), Some(120));
    assert_eq!(rss::retry_after(Some(" 120 ")), Some(120));
    assert_eq!(rss::retry_after(Some("0")), Some(0));
    assert_eq!(rss::retry_after(Some("Wed, 21 Oct 2026 07:28:00 GMT")), None);
    assert_eq!(rss::retry_after(Some("しばらく")), None);
    assert_eq!(rss::retry_after(Some("-5")), None);
    assert_eq!(rss::retry_after(None), None);
}

#[test]
fn feed_entries_become_sightings_with_their_hints() {
    let entries = vec![
        FeedEntry {
            title: "short".to_owned(),
            href: "https://www.youtube.com/shorts/bLKBe3uMMRI".to_owned(),
            published: "2026-09-03T11:16:56+00:00".to_owned(),
        },
        FeedEntry {
            title: "live".to_owned(),
            href: "https://www.youtube.com/watch?v=wwJV2mo2US4".to_owned(),
            published: "2026-09-03T11:16:56+00:00".to_owned(),
        },
    ];
    let sightings = rss::sightings_of(&entries).unwrap();
    assert_eq!(sightings[0].hint, TypeHint::Known(ContentType::YoutubeShorts));
    assert_eq!(sightings[1].hint, TypeHint::YoutubeUnknown);
    assert!(sightings[0].url.as_str().starts_with("https://www.youtube.com/watch?v="));

    let since = Timestamp::parse("2026-09-01T00:00:00+00:00").unwrap();
    assert_eq!(sighting_step(&sightings[0], since), SightingStep::Known(MediaType::YoutubeShorts));
    assert_eq!(sighting_step(&sightings[1], since), SightingStep::AskSchedule);
    let later = Timestamp::parse("2026-09-04T00:00:00+00:00").unwrap();
    assert_eq!(sighting_step(&sightings[1], later), SightingStep::Skip);

    let broken = vec![FeedEntry {
        title: "t".to_owned(),
        href: "https://www.youtube.com/watch?v=wwJV2mo2US4".to_owned(),
        published: "yesterday".to_owned(),
    }];
    assert!(matches!(rss::sightings_of(&broken), Err(AdapterError::Parse { .. })));
}

#[test]
fn route_every_type_has_someone_to_fetch_it() {
    let adapters = adapters();
    for content_type in ContentType::every() {
        let acquirer = adapters.acquirer(content_type);
        assert!(acquirer == Acquirer::YtDlp || acquirer == Acquirer::GalleryDl);
    }
}

fn channel() -> NormalizedUrl {
    url::normalize_source("https://www.youtube.com/channel/UCBR8-60-B28hp2BmDPdntcQ").unwrap()
}

#[test]
fn the_follow_up_call_asks_for_one_items_json() {
    let invocation = ytdlp::schedule_argv("/opt/homebrew/bin/yt-dlp", &video());

    assert_eq!(invocation.program_name(), "yt-dlp");
    assert_eq!(
        invocation.args_as_str().unwrap(),
        [
            "--ignore-config",
            "--no-warnings",
            "--skip-download",
            "--dump-json",
            "https://www.youtube.com/watch?v=dQw4w9WgXcQ",
        ]
    );
}

#[test]
fn authenticated_routes_carry_the_configured_browser() {
    for invocation in [
        ytdlp::describe_argv("/bin/yt-dlp", &video(), Browser::Safari),
        ytdlp::probe_argv("/bin/yt-dlp", &video(), Browser::Safari),
        ytdlp::download_argv("/bin/yt-dlp", &video(), "/tmp/42", Browser::Safari),
    ] {
        assert!(
            invocation
                .args_as_str()
                .unwrap()
                .windows(2)
                .any(|w| w == ["--cookies-from-browser", "safari"]),
            "{invocation:?}"
        );
    }
}

#[test]
fn ytdlp_every_call_ignores_the_users_own_config() {
    for invocation in [
        ytdlp::list_argv("/bin/yt-dlp", &channel(), Tab::Videos),
        ytdlp::schedule_argv("/bin/yt-dlp", &video()),
        ytdlp::describe_argv("/bin/yt-dlp", &video(), Browser::Firefox),
        ytdlp::probe_argv("/bin/yt-dlp", &video(), Browser::Firefox),
        ytdlp::download_argv("/bin/yt-dlp", &video(), "/tmp/42", Browser::Firefox),
    ] {
        assert!(
            invocation.args_as_str().unwrap().contains(&"--ignore-config"),
            "{invocation:?}"
        );
    }
}

#[test]
fn the_tab_decides_the_type() {
    for (tab, expected) in [
        (Tab::Videos, ContentType::YoutubeVideo),
        (Tab::Streams, ContentType::YoutubeLive),
        (Tab::Shorts, ContentType::YoutubeShorts),
    ] {
        assert_eq!(tab.content_type(), expected, "{tab:?}");
    }
}

#[test]
fn an_unknown_live_status_is_a_parse_error() {
    assert!(matches!(
        meta(None, None, Some("is_premiere")).media_type(),
        Err(AdapterError::Parse { .. })
    ));
    assert!(matches!(
        ytdlp::schedule_of(&meta(None, None, Some("is_premiere"))),
        Err(AdapterError::Parse { .. })
    ));
}

#[test]
fn ytdlp_a_changed_output_shape_is_a_parse_error() {
    // No date at all: neither `timestamp` nor `release_timestamp`.
    assert!(matches!(
        ytdlp::found_of(meta(None, None, None), MediaType::YoutubeVideo),
        Err(AdapterError::Parse { .. })
    ));
}

#[test]
fn auto_detection_passes_the_transcribers_own_word() {
    let invocation = whisper::transcribe_argv("whisper-cli", "/m.bin", &Language::Auto, "/a.wav", "/t");
    assert!(invocation.args_as_str().unwrap().windows(2).any(|w| w == ["-l", "auto"]));
}

#[test]
fn other_platforms_have_no_feed() {
    assert_eq!(rss::feed_url(&source_url()), None);
}

fn post_url() -> NormalizedUrl {
    url::normalize_item("https://x.com/i/status/20").unwrap().0
}

#[test]
fn every_call_ignores_the_users_own_config_and_names_the_browser() {
    for invocation in [
        gallerydl::timeline_argv("/bin/gallery-dl", "https://x.com/id:12/timeline", Browser::Safari),
        gallerydl::describe_argv("/bin/gallery-dl", &post_url(), Browser::Safari),
        gallerydl::download_argv("/bin/gallery-dl", &post_url(), "/tmp/x", Browser::Safari),
    ] {
        let args = invocation.args_as_str().unwrap();
        assert!(args.contains(&"--config-ignore"), "{invocation:?}");
        assert!(
            args.windows(2).any(|w| w == ["--cookies-from-browser", "safari"]),
            "{invocation:?}"
        );
    }
}

fn post_header(id: i64, date: &str, content: &str, reply: i64, quoted: i64) -> Entry {
    Entry::Post(TweetMetadata {
        tweet_id: id,
        date: date.to_owned(),
        content: content.to_owned(),
        reply_id: reply,
        quoted_id: quoted,
    })
}

/// A timeline of three posts as gallery-dl lists them: a text-only post, a
/// post with two images that replies to one post and quotes another, and a
/// video post with no text.
fn timeline() -> Vec<Entry> {
    vec![
        post_header(20, "2006-03-21 20:50:14", "just setting up my twttr", 0, 0),
        post_header(21, "2006-03-22 10:00:00", "二枚", 19, 18),
        Entry::File,
        Entry::File,
        post_header(22, "2006-03-23 10:00:00", "", 0, 0),
        Entry::File,
    ]
}

#[test]
fn reads_a_timeline() {
    let found = gallerydl::parse_timeline(Ok(timeline())).unwrap();
    assert_eq!(found.len(), 3);
    for entry in &found {
        assert_eq!(entry.content_type(), ContentType::XPost);
    }
}

#[test]
fn urls_are_canonical() {
    let found = gallerydl::parse_timeline(Ok(timeline())).unwrap();
    assert_eq!(found[0].url.as_str(), "https://x.com/i/status/20");
}

#[test]
fn files_after_a_post_mean_there_is_something_to_fetch() {
    let found = gallerydl::parse_timeline(Ok(timeline())).unwrap();
    assert_eq!(found[0].media, MediaPresence::Absent);
    assert_eq!(found[1].media, MediaPresence::Present);
    assert_eq!(found[2].media, MediaPresence::Present);
}

#[test]
fn a_media_only_post_has_an_empty_body() {
    let found = gallerydl::parse_timeline(Ok(timeline())).unwrap();
    match &found[2].content {
        Content::Post { body, .. } => assert!(body.is_empty()),
        other => panic!("a post, not {other:?}"),
    }
}

#[test]
fn links_are_recorded_as_canonical_urls() {
    let found = gallerydl::parse_timeline(Ok(timeline())).unwrap();
    let Content::Post { in_reply_to, quoted, .. } = &found[1].content else {
        panic!("a post");
    };
    assert_eq!(in_reply_to.as_ref().map(NormalizedUrl::as_str), Some("https://x.com/i/status/19"));
    assert_eq!(quoted.as_ref().map(NormalizedUrl::as_str), Some("https://x.com/i/status/18"));

    let Content::Post { in_reply_to, .. } = &found[0].content else {
        panic!("a post");
    };
    assert_eq!(*in_reply_to, None);
}

#[test]
fn dates_are_read_as_utc() {
    let found = gallerydl::parse_timeline(Ok(timeline())).unwrap();
    assert_eq!(found[0].published_at.to_text(), "2006-03-21T20:50:14+00:00");
}

#[test]
fn an_unknown_envelope_kind_is_a_parse_error() {
    let entries = vec![post_header(20, "2006-03-21 20:50:14", "x", 0, 0), Entry::Unknown(99)];
    assert!(matches!(gallerydl::parse_timeline(Ok(entries)), Err(AdapterError::Parse { .. })));
}

#[test]
fn gallerydl_a_changed_output_shape_is_a_parse_error() {
    for broken in [
        Err("expected value at line 1 column 1".to_owned()),
        Ok(vec![Entry::BadPost("missing field `tweet_id`".to_owned())]),
        Ok(vec![Entry::BadPost("missing field `date`".to_owned())]),
        Ok(vec![post_header(20, "きのう", "x", 0, 0)]),
        Ok(vec![Entry::File]),
    ] {
        assert!(
            matches!(gallerydl::parse_timeline(broken.clone()), Err(AdapterError::Parse { .. })),
            "{broken:?}"
        );
    }
}

#[test]
fn nothing_downloaded_is_a_parse_error() {
    assert!(matches!(gallerydl::place_downloads(Vec::new()), Err(AdapterError::Parse { .. })));
}

#[test]
fn a_download_that_placed_nothing_is_a_reading_failure() {
    let ok = Completed { success: true, stdout: String::new(), stderr: String::new() };
    assert_eq!(
        ytdlp::after_download(&ok, &video(), Vec::new()),
        Err(AdapterError::Parse {
            program: "yt-dlp".to_owned(),
            detail: "成功したが実体が置かれていない".to_owned()
        })
    );
    let placed = vec![escrow::asset::Asset::new(escrow::asset::AssetKind::Video, 1, "mp4".to_owned())];
    assert_eq!(ytdlp::after_download(&ok, &video(), placed.clone()), Ok(placed.clone()));
    let gone = failed("ERROR: [youtube] x: Video unavailable");
    assert_eq!(
        ytdlp::after_download(&gone, &video(), placed),
        Err(AdapterError::Unavailable { url: "https://www.youtube.com/watch?v=dQw4w9WgXcQ".to_owned() })
    );
}

#[test]
fn only_posts_since_the_watch_began_are_kept() {
    let found = gallerydl::parse_timeline(Ok(timeline())).unwrap();
    let since = Timestamp::parse("2006-03-22T00:00:00+00:00").unwrap();
    let kept = gallerydl::published_since(found.clone(), since);
    assert_eq!(kept, found[1..].to_vec());
    let exactly = Timestamp::parse("2006-03-22T10:00:00+00:00").unwrap();
    assert_eq!(gallerydl::published_since(found.clone(), exactly).len(), 2);
}

#[test]
fn a_described_post_is_the_first_in_the_output() {
    let found = gallerydl::parse_timeline(Ok(timeline())).unwrap();
    assert_eq!(gallerydl::first_post(found.clone(), &post_url()), Ok(found[0].clone()));
    assert_eq!(
        gallerydl::first_post(Vec::new(), &post_url()),
        Err(AdapterError::Unavailable { url: "https://x.com/i/status/20".to_owned() })
    );
}

#[test]
fn only_an_x_account_has_a_timeline() {
    assert_eq!(gallerydl::timeline_for(&source_url()), Ok("https://x.com/id:12/timeline".to_owned()));
    assert_eq!(
        gallerydl::timeline_for(&channel()),
        Err(AdapterError::Parse {
            program: "gallery-dl".to_owned(),
            detail: "X の配信元として読めない: https://www.youtube.com/channel/UCBR8-60-B28hp2BmDPdntcQ"
                .to_owned()
        })
    );
}

#[test]
fn only_a_channel_has_a_feed() {
    assert_eq!(
        rss::feed_for(&channel()),
        Ok("https://www.youtube.com/feeds/videos.xml?channel_id=UCBR8-60-B28hp2BmDPdntcQ".to_owned())
    );
    assert_eq!(
        rss::feed_for(&source_url()),
        Err(AdapterError::Parse {
            program: "youtube-rss".to_owned(),
            detail: "YouTube の配信元として読めない: https://x.com/i/user/12".to_owned()
        })
    );
}

#[test]
fn the_feed_status_tells_loss_refusal_and_passing_failure_apart() {
    assert_eq!(rss::feed_status(&channel(), 200, "200 OK", None), None);
    assert_eq!(
        rss::feed_status(&channel(), 404, "404 Not Found", None),
        Some(AdapterError::Unavailable {
            url: "https://www.youtube.com/channel/UCBR8-60-B28hp2BmDPdntcQ".to_owned()
        })
    );
    assert_eq!(
        rss::feed_status(&channel(), 429, "429 Too Many Requests", Some(" 120 ")),
        Some(AdapterError::Rejected {
            program: "youtube-rss".to_owned(),
            detail: "429 Too Many Requests".to_owned(),
            retry_after_secs: Some(120)
        })
    );
    assert_eq!(
        rss::feed_status(&channel(), 429, "429 Too Many Requests", Some("Wed, 21 Oct 2026 07:28:00 GMT")),
        Some(AdapterError::Rejected {
            program: "youtube-rss".to_owned(),
            detail: "429 Too Many Requests".to_owned(),
            retry_after_secs: None
        })
    );
    assert_eq!(
        rss::feed_status(&channel(), 503, "503 Service Unavailable", None),
        Some(AdapterError::Transient {
            program: "youtube-rss".to_owned(),
            detail: "503 Service Unavailable".to_owned()
        })
    );
}

#[test]
fn gallerydl_a_post_dated_at_a_leap_second_keeps_it() {
    let meta = TweetMetadata {
        tweet_id: 1900000000000000000,
        date: "2016-12-31 23:59:60".to_owned(),
        content: "うるう秒".to_owned(),
        reply_id: 0,
        quoted_id: 0,
    };
    let found = gallerydl::post(&meta).unwrap();
    assert!(found.published_at.leap_second());
    assert_eq!(found.published_at.to_text(), "2016-12-31T23:59:60+00:00");
}
