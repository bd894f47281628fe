use escrow::adapter::AdapterError;
use escrow::asset::{Asset, AssetKind};
use escrow::content::{Content, MediaType};
use escrow::item::{Item, ItemId};
use escrow::pipeline::{
    acquired_event, acquisition_entry, failure_route, is_audible, pending_transcripts, transcript_need,
    transcription_entry, Entry, FailureRoute, NotAtThisStep, PipelineError, Stage,
};
use escrow::source::{Monitoring, PersonId, Source, SourceId};
use escrow::state::{Event, Hold, State, StateName, TranscriptNeed};
use escrow::timestamp::Timestamp;
use escrow::url::normalize_item;

fn asset(kind: AssetKind, ordinal: u32, extension: &str) -> Asset {
    Asset::new(kind, ordinal, extension.to_owned())
}

fn item(state: State) -> Item {
    Item {
        id: ItemId::new(7),
        source_id: SourceId::new(1),
        url: normalize_item("https://www.youtube.com/watch?v=dQw4w9WgXcQ").unwrap().0,
        published_at: Timestamp::parse("2026-03-01T20:00:00+09:00").unwrap(),
        scheduled_start_at: None,
        state,
        state_since: Timestamp::parse("2026-03-01T20:05:00+09:00").unwrap(),
        content: Content::Media {
            media_type: MediaType::YoutubeLive,
            title: "○○の雑談配信".to_owned(),
        },
    }
}

#[test]
fn pipeline_images_alone_skip_transcription() {
    let images = vec![asset(AssetKind::Image, 1, "jpg"), asset(AssetKind::Image, 2, "png")];
    assert_eq!(transcript_need(&images), TranscriptNeed::NotNeeded);
    assert_eq!(transcript_need(&Vec::new()), TranscriptNeed::NotNeeded);
}

#[test]
fn anything_with_sound_needs_a_transcript() {
    let mixed = vec![asset(AssetKind::Image, 1, "jpg"), asset(AssetKind::Audio, 1, "m4a")];
    assert_eq!(transcript_need(&mixed), TranscriptNeed::Needed);
    assert_eq!(transcript_need(&vec![asset(AssetKind::Video, 1, "mp4")]), TranscriptNeed::Needed);
    assert!(is_audible(&asset(AssetKind::Video, 1, "mp4")));
    assert!(!is_audible(&asset(AssetKind::Transcript, 1, "vtt")));
}

#[test]
fn every_fragment_waits_for_its_own_transcript() {
    let assets = vec![asset(AssetKind::Video, 1, "mp4"), asset(AssetKind::Video, 2, "mp4")];
    let pending = pending_transcripts(&assets);
    assert_eq!(pending, assets);
}

#[test]
fn transcription_goes_on_from_where_it_stopped() {
    let assets = vec![
        asset(AssetKind::Transcript, 1, "vtt"),
        asset(AssetKind::Video, 1, "mp4"),
        asset(AssetKind::Video, 2, "mp4"),
        asset(AssetKind::Image, 3, "jpg"),
    ];
    let pending = pending_transcripts(&assets);
    assert_eq!(pending, vec![asset(AssetKind::Video, 2, "mp4")]);
    assert_eq!(pending[0].file_name(), "video.2.mp4");
}

#[test]
fn a_waiting_item_starts_and_a_stalled_one_resumes() {
    assert_eq!(acquisition_entry(&item(State::Waiting)), Ok(Entry::Start));
    assert_eq!(acquisition_entry(&item(State::Acquiring)), Ok(Entry::Resume));
}

#[test]
fn pipeline_only_a_waiting_item_can_start() {
    assert_eq!(
        acquisition_entry(&item(State::Kept)),
        Err(NotAtThisStep { id: ItemId::new(7), state: StateName::Kept, stage: Stage::Acquisition })
    );
    let transcribing = item(State::Transcribing { hold: Hold::NoDeadline });
    assert_eq!(
        acquisition_entry(&transcribing),
        Err(NotAtThisStep {
            id: ItemId::new(7),
            state: StateName::Transcribing,
            stage: Stage::Acquisition
        })
    );
}

#[test]
fn only_a_transcribing_item_enters_transcription() {
    let transcribing = item(State::Transcribing { hold: Hold::NoDeadline });
    assert_eq!(transcription_entry(&transcribing), Ok(()));
    assert_eq!(
        transcription_entry(&item(State::Waiting)),
        Err(NotAtThisStep {
            id: ItemId::new(7),
            state: StateName::Waiting,
            stage: Stage::Transcription
        })
    );
}

#[test]
fn a_failed_stage_is_routed_by_what_failed() {
    assert_eq!(failure_route(&PipelineError::Superseded), FailureRoute::Reread);
    let not_here = NotAtThisStep { id: ItemId::new(7), state: StateName::Kept, stage: Stage::Acquisition };
    assert_eq!(failure_route(&PipelineError::NotAtThisStep(not_here)), FailureRoute::Reread);
    let tool = AdapterError::Transient { program: "yt-dlp".to_owned(), detail: "timeout".to_owned() };
    assert_eq!(failure_route(&PipelineError::Adapter(tool)), FailureRoute::Note);
    assert_eq!(failure_route(&PipelineError::NoSuchItem(ItemId::new(7))), FailureRoute::Raise);
    assert_eq!(
        failure_route(&PipelineError::Store { detail: "locked".to_owned() }),
        FailureRoute::Raise
    );
    assert_eq!(
        failure_route(&PipelineError::Io { path: "/m/7".to_owned(), detail: "denied".to_owned() }),
        FailureRoute::Raise
    );
}

fn source(hold_days: Option<u32>) -> Source {
    Source {
        id: SourceId::new(1),
        person_id: PersonId::new(1),
        url: escrow::url::normalize_source("https://www.youtube.com/channel/UCBR8-60-B28hp2BmDPdntcQ")
            .unwrap(),
        enabled: true,
        created_at: Timestamp::parse("2026-01-01T00:00:00+09:00").unwrap(),
        hold_days,
        priority: 1,
        monitoring: Monitoring::Continuous,
    }
}

#[test]
fn the_end_of_an_acquisition_fixes_the_transcript_and_the_hold() {
    let finished = Timestamp::parse("2026-03-02T00:30:00+09:00").unwrap();
    let video = vec![asset(AssetKind::Video, 1, "mp4")];
    assert_eq!(
        acquired_event(&video, &source(Some(7)), finished),
        Ok(Event::Acquired {
            transcript: TranscriptNeed::Needed,
            hold: Hold::Until(Timestamp::parse("2026-03-09T00:30:00+09:00").unwrap()),
        })
    );
    let images = vec![asset(AssetKind::Image, 1, "jpg")];
    assert_eq!(
        acquired_event(&images, &source(None), finished),
        Ok(Event::Acquired { transcript: TranscriptNeed::NotNeeded, hold: Hold::NoDeadline })
    );
}

#[test]
fn a_hold_past_the_calendar_is_refused() {
    let late = Timestamp::parse("9999-12-30T00:00:00+00:00").unwrap();
    let video = vec![asset(AssetKind::Video, 1, "mp4")];
    assert!(acquired_event(&video, &source(Some(u32::MAX)), late).is_err());
}
