//! The error taxonomy of the session controller.

use vstd::prelude::*;

verus! {

/// Every failure a controller operation can report. `SessionConflict` is
/// internal to the session slot and is converted to `AlreadyRecording`
/// before it reaches a caller.
#[derive(Clone, Copy, PartialEq, Eq, Structural, Debug)]
pub enum ControlError {
    AlreadyRecording,
    NotRecording,
    WorkerNotFound,
    SpawnFailed,
    ArtifactMissing,
    WorkerExecutionFailed,
    MalformedResult,
    SessionConflict,
}

impl ControlError {
    /// The error as seen by a caller of the public operations:
    /// the internal conflict marker becomes `AlreadyRecording`,
    /// every other error passes through unchanged.
    pub fn at_boundary(self) -> (r: ControlError)
        ensures
            self == ControlError::SessionConflict ==> r == ControlError::AlreadyRecording,
            self != ControlError::SessionConflict ==> r == self,
            r != ControlError::SessionConflict,
    {
        match self {
            ControlError::SessionConflict => ControlError::AlreadyRecording,
            _ => self,
        }
    }

    /// The human-readable failure line a caller receives.
    pub fn describe(&self) -> (r: &'static str)
        ensures
            r@ == self.describe_spec(),
    {
        proof {
            reveal_strlit("a recording session is already active");
            reveal_strlit("no recording session is active");
            reveal_strlit("no worker entry point was found");
            reveal_strlit("the worker process could not be launched");
            reveal_strlit("the recording produced no audio file");
            reveal_strlit("the transcription worker failed");
            reveal_strlit("the worker returned a malformed result");
            reveal_strlit("the session slot is already occupied");
        }
        match self {
            ControlError::AlreadyRecording => "a recording session is already active",
            ControlError::NotRecording => "no recording session is active",
            ControlError::WorkerNotFound => "no worker entry point was found",
            ControlError::SpawnFailed => "the worker process could not be launched",
            ControlError::ArtifactMissing => "the recording produced no audio file",
            ControlError::WorkerExecutionFailed => "the transcription worker failed",
            ControlError::MalformedResult => "the worker returned a malformed result",
            ControlError::SessionConflict => "the session slot is already occupied",
        }
    }

    /// What `describe` returns, variant by variant.
    pub open spec fn describe_spec(&self) -> Seq<char> {
        match self {
            ControlError::AlreadyRecording => "a recording session is already active"@,
            ControlError::NotRecording => "no recording session is active"@,
            ControlError::WorkerNotFound => "no worker entry point was found"@,
            ControlError::SpawnFailed => "the worker process could not be launched"@,
            ControlError::ArtifactMissing => "the recording produced no audio file"@,
            ControlError::WorkerExecutionFailed => "the transcription worker failed"@,
            ControlError::MalformedResult => "the worker returned a malformed result"@,
            ControlError::SessionConflict => "the session slot is already occupied"@,
        }
    }
}

} // verus!
