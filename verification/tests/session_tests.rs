use dictation_session::errors::ControlError;
use dictation_session::session::SessionState;

#[test]
fn fresh_slot_is_idle() {
    let slot: SessionState<u64> = SessionState::new();
    assert!(!slot.is_active());
}

#[test]
fn begin_fills_the_empty_slot() {
    let mut slot: SessionState<u64> = SessionState::new();
    assert!(slot.try_begin(1, String::from("a.wav")).is_ok());
    assert!(slot.is_active());
}

#[test]
fn begin_on_full_slot_hands_the_worker_back() {
    let mut slot: SessionState<u64> = SessionState::new();
    assert!(slot.try_begin(1, String::from("a.wav")).is_ok());
    match slot.try_begin(2, String::from("b.wav")) {
        Err((handle, path)) => {
            assert_eq!(handle, 2);
            assert_eq!(path, "b.wav");
        }
        Ok(()) => panic!("a full slot must refuse a second session"),
    }
    // The stored session is still the first one.
    let (handle, path) = slot.take().unwrap();
    assert_eq!(handle, 1);
    assert_eq!(path, "a.wav");
}

#[test]
fn take_empties_the_slot_exactly_once() {
    let mut slot: SessionState<u64> = SessionState::new();
    assert!(slot.try_begin(9, String::from("take.wav")).is_ok());
    let (handle, path) = slot.take().unwrap();
    assert_eq!(handle, 9);
    assert_eq!(path, "take.wav");
    assert!(!slot.is_active());
    assert!(slot.take().is_none());
}

#[test]
fn boundary_conversion_hides_the_internal_conflict() {
    assert_eq!(
        ControlError::SessionConflict.at_boundary(),
        ControlError::AlreadyRecording
    );
    assert_eq!(
        ControlError::NotRecording.at_boundary(),
        ControlError::NotRecording
    );
    assert_eq!(
        ControlError::ArtifactMissing.at_boundary(),
        ControlError::ArtifactMissing
    );
}

#[test]
fn every_error_describes_itself() {
    let errors = vec![
        ControlError::AlreadyRecording,
        ControlError::NotRecording,
        ControlError::WorkerNotFound,
        ControlError::SpawnFailed,
        ControlError::ArtifactMissing,
        ControlError::WorkerExecutionFailed,
        ControlError::MalformedResult,
        ControlError::SessionConflict,
    ];
    for e in &errors {
        assert!(!e.describe().is_empty());
    }
    assert_eq!(
        ControlError::NotRecording.describe(),
        "no recording session is active"
    );
    assert_eq!(
        ControlError::MalformedResult.describe(),
        "the worker returned a malformed result"
    );
}
