use escrow::adapter::AdapterError;
use escrow::content::Platform;
use escrow::disk::Room;
use escrow::engine::{Limits, Notice, Report};
use escrow::liveness::Presence;
use escrow::round::{pass_step, watch_step, Next, Pass, Seen, Watch, WatchNext, Watched};
use escrow::state::Event;
use escrow::timestamp::Timestamp;

fn at(text: &str) -> Timestamp {
    Timestamp::parse(text).expect(text)
}

fn limits(max_retries: u32) -> Limits {
    Limits { min_free_gib: 10, max_retries }
}

#[test]
fn a_short_disk_stops_the_acquisition_round() {
    let mut report = Report::default();
    let l = limits(3);
    let (pass, next) = pass_step(Pass::Ready, Seen::Queued(Platform::Youtube), true, l, &mut report);
    assert_eq!((pass, next), (Pass::Measuring(Platform::Youtube), Next::MeasureRoom));
    let short = Room::Short { available: 1, required: 10 };
    let (pass, next) = pass_step(pass, Seen::Measured(short), true, l, &mut report);
    assert_eq!((pass, next), (Pass::Closed, Next::Stop));
    assert_eq!(report.notices, vec![Notice::NoRoom(short)]);
    let (pass, next) = pass_step(pass, Seen::Queued(Platform::X), true, l, &mut report);
    assert_eq!((pass, next), (Pass::Closed, Next::Stop));
    assert_eq!(report.advanced, 0);
}

#[test]
fn passing_failures_are_counted_until_the_retries_run_out() {
    let mut report = Report::default();
    let l = limits(3);
    let failure = AdapterError::Transient { program: "yt-dlp".to_owned(), detail: "timeout".to_owned() };
    let (pass, next) = pass_step(Pass::Running(Platform::Youtube), Seen::ToolFailed(failure), true, l, &mut report);
    assert_eq!((pass, next), (Pass::Counting, Next::CountFailure));
    assert!(report.notices.is_empty());
    assert_eq!(pass_step(Pass::Counting, Seen::Counted(Some(3)), true, l, &mut report), (Pass::Ready, Next::NextItem));
    assert_eq!(pass_step(Pass::Counting, Seen::Counted(Some(4)), true, l, &mut report), (Pass::GivingUp, Next::GiveUp));
    assert_eq!(pass_step(Pass::Counting, Seen::Counted(None), true, l, &mut report), (Pass::Ready, Next::NextItem));
    assert_eq!(pass_step(Pass::GivingUp, Seen::GaveUp(true), true, l, &mut report), (Pass::Ready, Next::NextItem));
    assert_eq!(report.failed, 1);
    assert_eq!(pass_step(Pass::GivingUp, Seen::GaveUp(false), true, l, &mut report), (Pass::Ready, Next::NextItem));
    assert_eq!(report.failed, 1);
}

#[test]
fn zero_retries_give_up_on_the_first_counted_failure() {
    let mut report = Report::default();
    assert_eq!(
        pass_step(Pass::Counting, Seen::Counted(Some(1)), true, limits(0), &mut report),
        (Pass::GivingUp, Next::GiveUp)
    );
}

#[test]
fn a_lost_item_is_given_up_at_once() {
    let mut report = Report::default();
    let gone = AdapterError::Unavailable { url: "https://www.youtube.com/watch?v=dQw4w9WgXcQ".to_owned() };
    assert_eq!(
        pass_step(Pass::Running(Platform::Youtube), Seen::ToolFailed(gone), true, limits(3), &mut report),
        (Pass::GivingUp, Next::GiveUp)
    );
}

#[test]
fn a_refused_platform_is_passed_over_for_the_rest_of_the_round() {
    let mut report = Report::default();
    let l = limits(3);
    let refused = AdapterError::Unauthenticated { detail: "expired".to_owned() };
    let (pass, next) = pass_step(Pass::Running(Platform::Youtube), Seen::ToolFailed(refused), true, l, &mut report);
    assert_eq!((pass, next), (Pass::Ready, Next::NextItem));
    assert_eq!(report.notices.len(), 1);
    assert!(report.halted(Platform::Youtube));
    assert_eq!(pass_step(pass, Seen::Queued(Platform::Youtube), true, l, &mut report), (Pass::Ready, Next::NextItem));
    assert_eq!(
        pass_step(pass, Seen::Queued(Platform::X), true, l, &mut report),
        (Pass::Measuring(Platform::X), Next::MeasureRoom)
    );
    assert_eq!(report.failed, 0);
}

#[test]
fn the_transcription_round_has_no_gate() {
    let mut report = Report::default();
    let l = limits(3);
    let (pass, next) = pass_step(Pass::Ready, Seen::Queued(Platform::X), false, l, &mut report);
    assert_eq!((pass, next), (Pass::Running(Platform::X), Next::RunStage));
    assert_eq!(pass_step(pass, Seen::Done, false, l, &mut report), (Pass::Ready, Next::NextItem));
    assert_eq!(report.advanced, 1);
    assert_eq!(pass_step(Pass::Running(Platform::X), Seen::Moved, false, l, &mut report), (Pass::Ready, Next::NextItem));
    assert_eq!(report.advanced, 1);
}

fn probed(answer: Result<Presence, AdapterError>, hold_days: Option<u32>, now: &str) -> Watched {
    Watched::Probed { answer, hold_days, state_since: at("2026-03-01T20:00:00+09:00"), now: at(now) }
}

#[test]
fn files_are_removed_only_after_the_discard_is_written() {
    let mut report = Report::default();
    let (watch, next) = watch_step(Watch::Ready, Watched::Queued(Platform::Youtube), &mut report);
    assert_eq!(watch, Watch::Probing(Platform::Youtube));
    assert!(matches!(next, WatchNext::Probe));
    let (watch, next) = watch_step(watch, probed(Ok(Presence::Present), Some(7), "2026-03-08T20:00:00+09:00"), &mut report);
    assert_eq!(watch, Watch::Applying(true));
    assert!(matches!(next, WatchNext::Apply(Event::HeldToDeadline(_))));
    let (after, next) = watch_step(watch, Watched::Applied(false), &mut report);
    assert_eq!(after, Watch::Ready);
    assert!(matches!(next, WatchNext::NextItem));
    let (watch, next) = watch_step(watch, Watched::Applied(true), &mut report);
    assert_eq!(watch, Watch::Removing);
    assert!(matches!(next, WatchNext::RemoveFiles));
    assert_eq!(report.discarded, 0);
    let (watch, next) = watch_step(watch, Watched::Removed, &mut report);
    assert_eq!(watch, Watch::Ready);
    assert!(matches!(next, WatchNext::NextItem));
    assert_eq!(report.discarded, 1);
}

#[test]
fn present_before_the_deadline_or_unknown_moves_nothing() {
    let mut report = Report::default();
    let probing = Watch::Probing(Platform::Youtube);
    let (watch, next) = watch_step(probing, probed(Ok(Presence::Present), Some(7), "2026-03-08T19:59:59+09:00"), &mut report);
    assert_eq!(watch, Watch::Ready);
    assert!(matches!(next, WatchNext::NextItem));
    let (watch, next) = watch_step(probing, probed(Ok(Presence::Present), None, "2027-01-01T00:00:00+09:00"), &mut report);
    assert_eq!(watch, Watch::Ready);
    assert!(matches!(next, WatchNext::NextItem));
    let failure = AdapterError::Transient { program: "yt-dlp".to_owned(), detail: "timeout".to_owned() };
    let (watch, next) = watch_step(probing, probed(Err(failure), Some(7), "2027-01-01T00:00:00+09:00"), &mut report);
    assert_eq!(watch, Watch::Ready);
    assert!(matches!(next, WatchNext::NextItem));
    assert_eq!(report.moved(), 0);
}

#[test]
fn a_gone_item_is_written_kept() {
    let mut report = Report::default();
    let gone = AdapterError::Unavailable { url: "https://www.youtube.com/watch?v=dQw4w9WgXcQ".to_owned() };
    let (watch, next) = watch_step(Watch::Probing(Platform::Youtube), probed(Err(gone), Some(7), "2026-03-02T00:00:00+09:00"), &mut report);
    assert_eq!(watch, Watch::Applying(false));
    assert!(matches!(next, WatchNext::Apply(Event::SourceGone)));
    let (watch, next) = watch_step(watch, Watched::Applied(true), &mut report);
    assert_eq!(watch, Watch::Ready);
    assert!(matches!(next, WatchNext::NextItem));
    assert_eq!(report.kept, 1);
    assert_eq!(report.discarded, 0);
}
