use batch_downloader::error::{BoxError, ErrorKind, NotFoundVideoError};
use batch_downloader::progress::{finish_message, ProgressState};
use batch_downloader::request::{plan_requests, quality_from_flag, DownloadRequest, Quality};
use batch_downloader::unit::{
    count_failures, DownloadOutcome, DownloadUnit, UnitAction, UnitEvent,
};

fn ids(v: &[&str]) -> Vec<String> {
    v.iter().map(|s| s.to_string()).collect()
}

fn request(id: &str, quality: Quality, dir: &str) -> DownloadRequest {
    DownloadRequest { identifier: id.to_string(), quality, output_dir: dir.to_string() }
}

fn outcome_of(action: UnitAction) -> DownloadOutcome {
    match action {
        UnitAction::Report { outcome } => outcome,
        _ => panic!("expected a report"),
    }
}

#[test]
fn single_video_best_quality_succeeds() {
    let reqs = match plan_requests(&ids(&["abc123"]), false, &"/tmp/out".to_string()) {
        Ok(r) => r,
        Err(_) => panic!("planning failed"),
    };
    assert_eq!(reqs.len(), 1);
    let mut progress = ProgressState::new(reqs.len());
    let req = reqs.into_iter().next().unwrap();
    let (unit, first) = DownloadUnit::start(req);
    assert!(matches!(first, UnitAction::Resolve { ref identifier } if identifier == "abc123"));
    let (unit, second) =
        unit.step(UnitEvent::Resolved { title: "Song A".to_string(), stream_available: true });
    match &second {
        UnitAction::Download { quality, output_dir } => {
            assert_eq!(*quality, Quality::Best);
            assert_eq!(output_dir, "/tmp/out");
        }
        _ => panic!("expected a download"),
    }
    let (unit, third) = unit.step(UnitEvent::Downloaded);
    assert!(unit.is_done());
    let outcome = outcome_of(third);
    assert!(outcome.is_success());
    assert_eq!(outcome.report_line(), "Downloaded video: Song A");
    assert!(progress.report_completion(0));
    assert_eq!(progress.completed(), 1);
    assert_eq!(progress.total(), 1);
    assert!(progress.finish());
    assert!(progress.is_finished());
}

#[test]
fn unresolvable_video_is_reported_and_counted() {
    let reqs = plan_requests(&ids(&["bad_id"]), false, &".".to_string()).ok().unwrap();
    let mut progress = ProgressState::new(1);
    let req = reqs.into_iter().next().unwrap();
    let (unit, _) = DownloadUnit::start(req);
    let (unit, action) = unit.step(UnitEvent::ResolveFailed { reason: "bad id format".to_string() });
    assert!(unit.is_done());
    let outcome = outcome_of(action);
    assert!(!outcome.is_success());
    assert_eq!(outcome.error.as_ref().unwrap().kind, ErrorKind::Resolution);
    let line = outcome.report_line();
    assert!(line.contains("bad_id"));
    assert_eq!(line, "Failed to download bad_id: Could not resolve video: bad id format");
    assert!(progress.report_completion(0));
    assert_eq!(progress.completed(), 1);
    assert!(progress.finish());
}

#[test]
fn empty_list_fails_fast() {
    let r = plan_requests(&Vec::new(), false, &".".to_string());
    match r {
        Err(e) => {
            assert_eq!(e.kind, ErrorKind::NoInput);
            assert_eq!(e.message(), "No videos.");
        }
        Ok(_) => panic!("an empty list must be refused"),
    }
}

#[test]
fn plan_keeps_order_quality_and_directory() {
    let reqs = plan_requests(&ids(&["a", "b", "c"]), true, &"dir".to_string()).ok().unwrap();
    let got: Vec<&str> = reqs.iter().map(|r| r.identifier.as_str()).collect();
    assert_eq!(got, vec!["a", "b", "c"]);
    assert!(reqs.iter().all(|r| r.quality == Quality::Worst && r.output_dir == "dir"));
    assert_eq!(quality_from_flag(false), Quality::Best);
    assert_eq!(quality_from_flag(true), Quality::Worst);
}

#[test]
fn every_unit_counted_once_in_any_order() {
    let n: usize = 5;
    let mut progress = ProgressState::new(n);
    assert!(!progress.finish());
    for unit in [3usize, 0, 4, 1, 2] {
        assert!(progress.report_completion(unit));
        assert!(progress.completed() <= progress.total());
    }
    assert_eq!(progress.completed(), n);
    assert!(progress.finish());
    assert!(!progress.finish());
}

#[test]
fn repeated_or_out_of_range_report_changes_nothing() {
    let mut progress = ProgressState::new(2);
    assert!(progress.report_completion(1));
    assert!(!progress.report_completion(1));
    assert!(!progress.report_completion(2));
    assert_eq!(progress.completed(), 1);
    assert!(progress.report_completion(0));
    assert!(progress.finish());
    assert!(!progress.report_completion(0));
    assert_eq!(progress.completed(), 2);
}

#[test]
fn failures_do_not_stop_other_units() {
    let (good, _) = DownloadUnit::start(request("good", Quality::Best, "."));
    let (bad, _) = DownloadUnit::start(request("bad", Quality::Best, "."));
    let mut progress = ProgressState::new(2);
    let (bad, a) = bad.step(UnitEvent::ResolveFailed { reason: "unreachable".to_string() });
    assert!(bad.is_done());
    let bad_outcome = outcome_of(a);
    assert!(progress.report_completion(1));
    let (good, _) = good.step(UnitEvent::Resolved { title: "T".to_string(), stream_available: true });
    let (_, a) = good.step(UnitEvent::Downloaded);
    let good_outcome = outcome_of(a);
    assert!(good_outcome.is_success());
    assert!(progress.report_completion(0));
    assert!(progress.finish());
    assert_eq!(count_failures(&vec![good_outcome, bad_outcome]), 1);
}

#[test]
fn missing_stream_is_reported() {
    let (unit, _) = DownloadUnit::start(request("x1", Quality::Worst, "."));
    let (unit, a) = unit.step(UnitEvent::Resolved { title: "Clip".to_string(), stream_available: false });
    assert!(unit.is_done());
    let outcome = outcome_of(a);
    assert_eq!(outcome.title.as_deref(), Some("Clip"));
    let e = outcome.error.as_ref().unwrap();
    assert_eq!(e.kind, ErrorKind::NoStreamAvailable);
    assert_eq!(outcome.report_line(), "Failed to download x1: No stream available: Video not found");
}

#[test]
fn failed_download_is_reported() {
    let (unit, _) = DownloadUnit::start(request("x2", Quality::Best, "/nowhere"));
    let (unit, _) = unit.step(UnitEvent::Resolved { title: "Clip".to_string(), stream_available: true });
    let (unit, a) = unit.step(UnitEvent::DownloadFailed { reason: "disk full".to_string() });
    assert!(unit.is_done());
    let outcome = outcome_of(a);
    assert_eq!(outcome.error.as_ref().unwrap().kind, ErrorKind::Download);
    assert_eq!(outcome.report_line(), "Failed to download x2: Download failed: disk full");
}

#[test]
fn done_unit_ignores_further_events() {
    let (unit, _) = DownloadUnit::start(request("x3", Quality::Best, "."));
    let (unit, _) = unit.step(UnitEvent::ResolveFailed { reason: "r".to_string() });
    let (unit, a) = unit.step(UnitEvent::Downloaded);
    assert!(matches!(a, UnitAction::Ignore));
    let (unit, a) = unit.step(UnitEvent::Resolved { title: "t".to_string(), stream_available: true });
    assert!(matches!(a, UnitAction::Ignore));
    assert!(unit.is_done());
}

#[test]
fn out_of_phase_event_is_ignored() {
    let (unit, _) = DownloadUnit::start(request("x4", Quality::Best, "."));
    let (unit, a) = unit.step(UnitEvent::Downloaded);
    assert!(matches!(a, UnitAction::Ignore));
    assert!(!unit.is_done());
}

#[test]
fn error_messages_and_constants() {
    assert_eq!(NotFoundVideoError {}.message(), "Video not found");
    let e = BoxError::from_not_found(NotFoundVideoError {});
    assert_eq!(e.kind, ErrorKind::NoStreamAvailable);
    assert_eq!(e.message(), "Video not found");
    assert_eq!(e.kind_label(), "No stream available: ");
    let e = BoxError::new(ErrorKind::Resolution, "net".to_string());
    assert_eq!(e.message(), "net");
    assert_eq!(e.kind_label(), "Could not resolve video: ");
    assert_eq!(BoxError::no_input().message(), "No videos.");
    assert_eq!(finish_message(), "Downloaded all videos");
}

#[test]
fn empty_progress_closes_at_once() {
    let mut p = ProgressState::new(0);
    assert_eq!(p.completed(), 0);
    assert!(!p.report_completion(0));
    assert!(p.finish());
    assert_eq!(count_failures(&Vec::new()), 0);
}
