use dictation_session::controller::{
    accept_decoded, check_artifact, conclude_transcription, default_model, Controller,
    SpawnOutcome, ToggleRoute, TranscriptOutcome,
};
use dictation_session::errors::ControlError;

fn spawned(handle: u64, path: &str) -> SpawnOutcome<u64> {
    SpawnOutcome::Spawned { handle, artifact_path: String::from(path) }
}

#[test]
fn start_on_idle_begins_session() {
    let mut c: Controller<u64> = Controller::new();
    assert!(!c.is_active());
    let outcome = c.start(spawned(1, "rec.wav"));
    assert!(outcome.result.is_ok());
    assert!(outcome.orphan.is_none());
    assert!(outcome.notify_listening);
    assert!(c.is_active());
}

#[test]
fn concurrent_starts_exactly_one_succeeds() {
    // Mutual exclusion: of two interleaved starts, the first claims the
    // slot, the second fails and is told to terminate its own worker.
    let mut c: Controller<u64> = Controller::new();
    let first = c.start(spawned(1, "a.wav"));
    let second = c.start(spawned(2, "b.wav"));
    assert!(first.result.is_ok());
    assert_eq!(second.result, Err(ControlError::AlreadyRecording));
    assert_eq!(second.orphan, Some(2));
    assert!(!second.notify_listening);
    assert!(c.is_active());
    // The surviving session is the first one.
    let taken = c.begin_stop().unwrap();
    assert_eq!(taken.0, 1);
    assert_eq!(taken.1, "a.wav");
}

#[test]
fn start_without_worker_fails_and_stays_idle() {
    let mut c: Controller<u64> = Controller::new();
    let outcome = c.start(SpawnOutcome::WorkerMissing);
    assert_eq!(outcome.result, Err(ControlError::WorkerNotFound));
    assert!(outcome.orphan.is_none());
    assert!(!c.is_active());
    let outcome = c.start(SpawnOutcome::LaunchFailed);
    assert_eq!(outcome.result, Err(ControlError::SpawnFailed));
    assert!(!c.is_active());
}

#[test]
fn stop_without_session_is_not_recording() {
    // No-session stop: NotRecording, and no handle to act on.
    let mut c: Controller<u64> = Controller::new();
    match c.begin_stop() {
        Err(e) => assert_eq!(e, ControlError::NotRecording),
        Ok(_) => panic!("a stop with no session must fail"),
    }
    // No side effects: a start right after succeeds as from fresh.
    assert!(c.start(spawned(3, "c.wav")).result.is_ok());
}

#[test]
fn round_trip_returns_and_injects_the_text() {
    let mut c: Controller<u64> = Controller::new();
    assert!(c.start(spawned(5, "take.wav")).result.is_ok());

    let (handle, path) = c.begin_stop().unwrap();
    assert_eq!(handle, 5);
    assert_eq!(path, "take.wav");
    assert!(!c.is_active());

    let gate = check_artifact(true);
    assert!(gate.result.is_ok());
    assert!(gate.notify_processing);

    let stdout = String::from("{\"text\":\"hello world\"}");
    let done = conclude_transcription(TranscriptOutcome::Produced { stdout }, true);
    assert_eq!(done.result.as_deref(), Ok("hello world"));
    let injection = done.injection.expect("success must order one injection");
    assert_eq!(injection.text, "hello world");
    assert!(injection.append_newline);
    assert!(done.notify_ready);
}

#[test]
fn artifact_missing_fails_before_any_injection() {
    let mut c: Controller<u64> = Controller::new();
    assert!(c.start(spawned(6, "gone.wav")).result.is_ok());
    let _ = c.begin_stop().unwrap();

    let gate = check_artifact(false);
    assert_eq!(gate.result, Err(ControlError::ArtifactMissing));
    assert!(!gate.notify_processing);

    // Idle state is restored: a fresh start succeeds.
    assert!(c.start(spawned(7, "again.wav")).result.is_ok());
}

#[test]
fn malformed_stdout_fails_without_injection() {
    let not_json = conclude_transcription(
        TranscriptOutcome::Produced { stdout: String::from("not json at all") },
        false,
    );
    assert_eq!(not_json.result, Err(ControlError::MalformedResult));
    assert!(not_json.injection.is_none());
    assert!(!not_json.notify_ready);

    let no_text = conclude_transcription(
        TranscriptOutcome::Produced { stdout: String::from("{\"words\":\"hi\"}") },
        false,
    );
    assert_eq!(no_text.result, Err(ControlError::MalformedResult));
    assert!(no_text.injection.is_none());

    let text_not_string = conclude_transcription(
        TranscriptOutcome::Produced { stdout: String::from("{\"text\":42}") },
        false,
    );
    assert_eq!(text_not_string.result, Err(ControlError::MalformedResult));
    assert!(text_not_string.injection.is_none());
}

#[test]
fn worker_failures_surface_as_execution_failed() {
    let not_launched = conclude_transcription(TranscriptOutcome::NotLaunched, false);
    assert_eq!(not_launched.result, Err(ControlError::WorkerExecutionFailed));
    assert!(not_launched.injection.is_none());

    let bad_exit = conclude_transcription(TranscriptOutcome::ExitedFailure, false);
    assert_eq!(bad_exit.result, Err(ControlError::WorkerExecutionFailed));
    assert!(bad_exit.injection.is_none());
}

#[test]
fn every_stop_failure_leaves_a_fresh_start_possible() {
    // State restoration: inject each failure point in turn; a start
    // always succeeds afterwards.
    let mut c: Controller<u64> = Controller::new();

    // Failure point: artifact missing.
    assert!(c.start(spawned(10, "x.wav")).result.is_ok());
    let _ = c.begin_stop().unwrap();
    assert_eq!(check_artifact(false).result, Err(ControlError::ArtifactMissing));
    assert!(c.start(spawned(11, "y.wav")).result.is_ok());

    // Failure point: worker exits non-zero.
    let _ = c.begin_stop().unwrap();
    let failed = conclude_transcription(TranscriptOutcome::ExitedFailure, false);
    assert!(failed.result.is_err());
    assert!(c.start(spawned(12, "z.wav")).result.is_ok());

    // Failure point: malformed JSON.
    let _ = c.begin_stop().unwrap();
    let malformed = conclude_transcription(
        TranscriptOutcome::Produced { stdout: String::from("{") },
        false,
    );
    assert!(malformed.result.is_err());
    assert!(c.start(spawned(13, "w.wav")).result.is_ok());
}

#[test]
fn accept_decoded_echoes_the_decoded_text() {
    let ok = accept_decoded(Some(String::from("dictated line")), false);
    assert_eq!(ok.result.as_deref(), Ok("dictated line"));
    let injection = ok.injection.expect("success must order one injection");
    assert_eq!(injection.text, "dictated line");
    assert!(!injection.append_newline);

    let failed = accept_decoded(None, true);
    assert_eq!(failed.result, Err(ControlError::MalformedResult));
    assert!(failed.injection.is_none());
    assert!(!failed.notify_ready);
}

#[test]
fn toggle_routes_by_current_state() {
    let mut c: Controller<u64> = Controller::new();
    assert!(matches!(c.toggle_route(), ToggleRoute::RouteStart));
    assert!(c.start(spawned(8, "t.wav")).result.is_ok());
    assert!(matches!(c.toggle_route(), ToggleRoute::RouteStop));
    let _ = c.begin_stop().unwrap();
    assert!(matches!(c.toggle_route(), ToggleRoute::RouteStart));
}

#[test]
fn toggle_default_model_is_base() {
    assert_eq!(default_model(), "base");
}
