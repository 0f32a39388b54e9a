//! The session controller: the state machine driving a recording from
//! start through stop, collection, transcription and injection.
//!
//! The controller owns the decisions; the blocking operating-system
//! work around it (spawning the worker, signalling it, probing the
//! file system, running the transcribe invocation, simulating the
//! keystrokes) happens outside and reports back as plain observations:
//! a `SpawnOutcome` going in to `start`, an artifact-existence flag and
//! a `TranscriptOutcome` going in to the stop stages. Every directive
//! that comes back out — the error to surface, the orphan to terminate,
//! the text to inject, the notification to emit — is pinned by the
//! contracts below, so the surrounding runtime has nothing to decide.

use vstd::prelude::*;

use crate::errors::ControlError;
use crate::protocol::{decode_transcription, decoded_view, json_parses, text_member_of};
use crate::session::SessionState;

verus! {

/// What the attempt to resolve and spawn the capture worker observed,
/// before the controller decides whether the session may begin.
pub enum SpawnOutcome<H> {
    /// No worker entry point exists at any known location.
    WorkerMissing,
    /// The worker entry point exists but the process could not be
    /// launched (for one, no compatible interpreter is on the host).
    LaunchFailed,
    /// A capture worker is running and will write to `artifact_path`.
    Spawned { handle: H, artifact_path: String },
}

/// Everything `start` directs its caller to do.
pub struct StartOutcome<H> {
    /// Success, or the failure to surface to the caller.
    pub result: Result<(), ControlError>,
    /// A worker that was spawned but refused a session slot: the caller
    /// must terminate it, so that no process is left orphaned.
    pub orphan: Option<H>,
    /// Whether the advisory "listening" notification is due.
    pub notify_listening: bool,
}

/// What the transcribe invocation observed.
pub enum TranscriptOutcome {
    /// The transcribe process could not be launched.
    NotLaunched,
    /// The process ran but exited with a failure status.
    ExitedFailure,
    /// The process exited cleanly with this standard output.
    Produced { stdout: String },
}

/// One keystroke-injection order: the text to type into the focused
/// window, and whether a newline follows it.
pub struct Injection {
    pub text: String,
    pub append_newline: bool,
}

/// Everything the final stop stage directs its caller to do.
pub struct StopOutcome {
    /// The transcribed text, or the failure to surface to the caller.
    pub result: Result<String, ControlError>,
    /// The one injection due on success; never present on failure.
    pub injection: Option<Injection>,
    /// Whether the advisory "ready" notification is due.
    pub notify_ready: bool,
}

/// The artifact-existence gate's directives.
pub struct ArtifactCheck {
    /// Permission to transcribe, or the failure to surface.
    pub result: Result<(), ControlError>,
    /// Whether the advisory "processing" notification is due.
    pub notify_processing: bool,
}

/// Routing decision of the toggle entry point.
pub enum ToggleRoute {
    RouteStart,
    RouteStop,
}

/// The session slot after a start observes `spawn`: filled exactly when
/// the slot was idle and a worker was spawned; otherwise unchanged.
pub open spec fn start_next<H>(session: Option<(H, Seq<char>)>, spawn: SpawnOutcome<H>) -> Option<
    (H, Seq<char>),
> {
    match spawn {
        SpawnOutcome::Spawned { handle, artifact_path } => if session is None {
            Some((handle, artifact_path@))
        } else {
            session
        },
        _ => session,
    }
}

/// What a start observing `spawn` reports on a slot in state `session`.
pub open spec fn start_result<H>(session: Option<(H, Seq<char>)>, spawn: SpawnOutcome<H>) -> Result<
    (),
    ControlError,
> {
    match spawn {
        SpawnOutcome::WorkerMissing => Err(ControlError::WorkerNotFound),
        SpawnOutcome::LaunchFailed => Err(ControlError::SpawnFailed),
        SpawnOutcome::Spawned { .. } => if session is None {
            Ok(())
        } else {
            Err(ControlError::AlreadyRecording)
        },
    }
}

/// The spawned-but-rejected worker a start must terminate: present
/// exactly when a worker was spawned against an occupied slot.
pub open spec fn start_orphan<H>(session: Option<(H, Seq<char>)>, spawn: SpawnOutcome<H>) -> Option<
    H,
> {
    match spawn {
        SpawnOutcome::Spawned { handle, .. } => if session is None {
            None
        } else {
            Some(handle)
        },
        _ => None,
    }
}

/// The verdict of a whole stop, from what its stages observed: whether
/// a session was active, whether the artifact exists, whether the
/// transcribe process launched and exited cleanly, and what its stdout
/// decoded to. Each failure names the first gate that refused.
pub open spec fn stop_verdict(
    active: bool,
    artifact_exists: bool,
    launched: bool,
    exit_ok: bool,
    decoded: Option<Seq<char>>,
) -> Result<Seq<char>, ControlError> {
    if !active {
        Err(ControlError::NotRecording)
    } else if !artifact_exists {
        Err(ControlError::ArtifactMissing)
    } else if !launched || !exit_ok {
        Err(ControlError::WorkerExecutionFailed)
    } else {
        match decoded {
            Some(text) => Ok(text),
            None => Err(ControlError::MalformedResult),
        }
    }
}

/// The injection a whole stop orders: exactly one, carrying the
/// transcribed text and the requested newline flag, on success; none on
/// any failure.
pub open spec fn stop_injection(
    active: bool,
    artifact_exists: bool,
    launched: bool,
    exit_ok: bool,
    decoded: Option<Seq<char>>,
    append_newline: bool,
) -> Option<(Seq<char>, bool)> {
    match stop_verdict(active, artifact_exists, launched, exit_ok, decoded) {
        Ok(text) => Some((text, append_newline)),
        Err(_) => None,
    }
}

/// The advisory "processing" notification is due once an active
/// session's artifact was found, just before transcription.
pub open spec fn stop_notifies_processing(active: bool, artifact_exists: bool) -> bool {
    active && artifact_exists
}

/// The advisory "ready" notification is due exactly on success.
pub open spec fn stop_notifies_ready(
    active: bool,
    artifact_exists: bool,
    launched: bool,
    exit_ok: bool,
    decoded: Option<Seq<char>>,
) -> bool {
    stop_verdict(active, artifact_exists, launched, exit_ok, decoded) is Ok
}

/// A stop result, seen over the text's view.
pub open spec fn result_view(r: Result<String, ControlError>) -> Result<Seq<char>, ControlError> {
    match r {
        Ok(text) => Ok(text@),
        Err(e) => Err(e),
    }
}

/// An injection order, seen over the text's view.
pub open spec fn injection_view(injection: Option<Injection>) -> Option<(Seq<char>, bool)> {
    match injection {
        Some(i) => Some((i.text@, i.append_newline)),
        None => None,
    }
}

/// The controller: the session slot plus the decision logic around it.
/// The process keeps one instance behind a mutex; each method below is
/// one atomic transition of the state machine.
pub struct Controller<H> {
    state: SessionState<H>,
}

impl<H> View for Controller<H> {
    type V = Option<(H, Seq<char>)>;

    closed spec fn view(&self) -> Option<(H, Seq<char>)> {
        self.state@
    }
}

impl<H> Controller<H> {
    /// A controller with an idle session slot.
    pub fn new() -> (r: Controller<H>)
        ensures
            r@ is None,
    {
        Controller { state: SessionState::new() }
    }

    /// Whether a recording session is currently active.
    pub fn is_active(&self) -> (r: bool)
        ensures
            r == (self@ is Some),
    {
        self.state.is_active()
    }

    /// Where the toggle entry point routes: to a stop while a session
    /// is active, to a start otherwise. The decision reads the slot at
    /// call time; a caller must not act on an older observation.
    pub fn toggle_route(&self) -> (r: ToggleRoute)
        ensures
            r is RouteStop <==> self@ is Some,
    {
        if self.state.is_active() {
            ToggleRoute::RouteStop
        } else {
            ToggleRoute::RouteStart
        }
    }

    /// Decides a start, given what resolving and spawning the capture
    /// worker observed. A spawned worker claims the session slot; if
    /// the slot is occupied the worker is handed back as an orphan to
    /// terminate and the caller sees `AlreadyRecording` (the slot's
    /// internal conflict, converted at the boundary).
    pub fn start(&mut self, spawn: SpawnOutcome<H>) -> (r: StartOutcome<H>)
        ensures
            final(self)@ == start_next(old(self)@, spawn),
            r.result == start_result(old(self)@, spawn),
            r.orphan == start_orphan(old(self)@, spawn),
            r.notify_listening == (start_result(old(self)@, spawn) is Ok),
    {
        match spawn {
            SpawnOutcome::WorkerMissing => StartOutcome {
                result: Err(ControlError::WorkerNotFound),
                orphan: None,
                notify_listening: false,
            },
            SpawnOutcome::LaunchFailed => StartOutcome {
                result: Err(ControlError::SpawnFailed),
                orphan: None,
                notify_listening: false,
            },
            SpawnOutcome::Spawned { handle, artifact_path } => {
                match self.state.try_begin(handle, artifact_path) {
                    Ok(()) => StartOutcome {
                        result: Ok(()),
                        orphan: None,
                        notify_listening: true,
                    },
                    Err((rejected, _path)) => StartOutcome {
                        result: Err(ControlError::SessionConflict.at_boundary()),
                        orphan: Some(rejected),
                        notify_listening: false,
                    },
                }
            },
        }
    }

    /// The first stop stage: takes the active session, or refuses with
    /// `NotRecording`. The slot is idle afterwards in either case, so
    /// whatever the later stages meet, a fresh start is possible — and
    /// on refusal there is no handle, so the caller has nothing to
    /// terminate, nothing to run and nothing to notify.
    pub fn begin_stop(&mut self) -> (r: Result<(H, String), ControlError>)
        ensures
            final(self)@ is None,
            old(self)@ is None ==> (r matches Err(e) && e == ControlError::NotRecording),
            old(self)@ matches Some(s) ==> (r matches Ok(t) && t.0 == s.0 && t.1@ == s.1),
    {
        match self.state.take() {
            Some(session) => Ok(session),
            None => Err(ControlError::NotRecording),
        }
    }
}

/// The artifact gate, after the taken worker was terminated: the
/// capture file's existence is the correctness check, not the
/// termination's own outcome, which is deliberately swallowed.
pub fn check_artifact(artifact_exists: bool) -> (r: ArtifactCheck)
    ensures
        r.result is Ok <==> artifact_exists,
        !artifact_exists ==> (r.result matches Err(e) && e == ControlError::ArtifactMissing),
        r.notify_processing == stop_notifies_processing(true, artifact_exists),
{
    if artifact_exists {
        ArtifactCheck { result: Ok(()), notify_processing: true }
    } else {
        ArtifactCheck { result: Err(ControlError::ArtifactMissing), notify_processing: false }
    }
}

/// The last stop stage on an already decoded transcription: a decoded
/// text is returned and ordered injected exactly once, with the
/// requested newline flag; a failed decode is `MalformedResult` and
/// orders nothing.
pub fn accept_decoded(decoded: Option<String>, append_newline: bool) -> (r: StopOutcome)
    ensures
        result_view(r.result) == stop_verdict(true, true, true, true, decoded_view(decoded)),
        injection_view(r.injection) == stop_injection(
            true,
            true,
            true,
            true,
            decoded_view(decoded),
            append_newline,
        ),
        r.notify_ready == stop_notifies_ready(true, true, true, true, decoded_view(decoded)),
{
    match decoded {
        Some(text) => {
            let echo = text.clone();
            StopOutcome {
                result: Ok(text),
                injection: Some(Injection { text: echo, append_newline }),
                notify_ready: true,
            }
        },
        None => StopOutcome {
            result: Err(ControlError::MalformedResult),
            injection: None,
            notify_ready: false,
        },
    }
}

/// Decides the end of a stop from what the transcribe invocation
/// observed: a launch failure or failing exit status is
/// `WorkerExecutionFailed`; a clean exit has its stdout decoded by the
/// result protocol — exactly the `text` member named by
/// `text_member_of` — and handed to `accept_decoded`.
pub fn conclude_transcription(transcript: TranscriptOutcome, append_newline: bool) -> (r:
    StopOutcome)
    ensures
        transcript is NotLaunched ==> result_view(r.result) == stop_verdict(
            true,
            true,
            false,
            true,
            None,
        ),
        transcript is ExitedFailure ==> result_view(r.result) == stop_verdict(
            true,
            true,
            true,
            false,
            None,
        ),
        transcript matches TranscriptOutcome::Produced { stdout } ==> result_view(r.result)
            == stop_verdict(true, true, true, true, text_member_of(stdout@)),
        transcript matches TranscriptOutcome::Produced { stdout } ==> injection_view(r.injection)
            == stop_injection(true, true, true, true, text_member_of(stdout@), append_newline),
        (transcript matches TranscriptOutcome::Produced { stdout } && !json_parses(stdout@))
            ==> result_view(r.result) == stop_verdict(true, true, true, true, None),
        r.result matches Ok(text) ==> (transcript matches TranscriptOutcome::Produced { stdout }
            && json_parses(stdout@)),
        (r.injection is Some) <==> (r.result is Ok),
        r.result matches Ok(text) ==> (r.injection matches Some(i) && i.text@ == text@
            && i.append_newline == append_newline),
        r.notify_ready == (r.result is Ok),
{
    match transcript {
        TranscriptOutcome::NotLaunched => StopOutcome {
            result: Err(ControlError::WorkerExecutionFailed),
            injection: None,
            notify_ready: false,
        },
        TranscriptOutcome::ExitedFailure => StopOutcome {
            result: Err(ControlError::WorkerExecutionFailed),
            injection: None,
            notify_ready: false,
        },
        TranscriptOutcome::Produced { stdout } => {
            let decoded = decode_transcription(stdout.as_str());
            accept_decoded(decoded, append_newline)
        },
    }
}

/// The model identifier the toggle entry point uses when none was
/// asked for.
pub fn default_model() -> (r: String)
    ensures
        r@ == "base"@,
{
    String::from_str("base")
}

/// Mutual exclusion: of two start attempts that both spawned a worker,
/// interleaved in either order against an idle slot (each transition is
/// atomic under the slot's lock), exactly the first succeeds; the
/// second is refused with `AlreadyRecording`, leaves the session
/// unchanged, and is directed to terminate the worker it spawned, so no
/// process is left orphaned.
pub proof fn lemma_start_mutual_exclusion<H>(first: SpawnOutcome<H>, second: SpawnOutcome<H>)
    requires
        first is Spawned,
        second is Spawned,
    ensures
        start_result(None::<(H, Seq<char>)>, first) is Ok,
        start_result(start_next(None::<(H, Seq<char>)>, first), second) == Err::<
            (),
            ControlError,
        >(ControlError::AlreadyRecording),
        start_next(start_next(None::<(H, Seq<char>)>, first), second) == start_next(
            None::<(H, Seq<char>)>,
            first,
        ),
        second matches SpawnOutcome::Spawned { handle, .. } ==> start_orphan(
            start_next(None::<(H, Seq<char>)>, first),
            second,
        ) == Some(handle),
{
}

/// The session slot after a whole sequence of start attempts, applied
/// in order.
pub open spec fn start_next_all<H>(
    session: Option<(H, Seq<char>)>,
    spawns: Seq<SpawnOutcome<H>>,
) -> Option<(H, Seq<char>)>
    decreases spawns.len(),
{
    if spawns.len() == 0 {
        session
    } else {
        start_next_all(start_next(session, spawns[0]), spawns.drop_first())
    }
}

/// How many of a sequence of start attempts succeed.
pub open spec fn start_success_count<H>(
    session: Option<(H, Seq<char>)>,
    spawns: Seq<SpawnOutcome<H>>,
) -> nat
    decreases spawns.len(),
{
    if spawns.len() == 0 {
        0
    } else {
        (if start_result(session, spawns[0]) is Ok {
            1nat
        } else {
            0nat
        }) + start_success_count(start_next(session, spawns[0]), spawns.drop_first())
    }
}

/// While a session is active, no start attempt whatever succeeds, and
/// none changes the slot.
pub proof fn lemma_no_start_succeeds_while_active<H>(
    session: Option<(H, Seq<char>)>,
    spawns: Seq<SpawnOutcome<H>>,
)
    requires
        session is Some,
    ensures
        start_success_count(session, spawns) == 0,
        start_next_all(session, spawns) == session,
    decreases spawns.len(),
{
    if spawns.len() > 0 {
        lemma_no_start_succeeds_while_active(start_next(session, spawns[0]), spawns.drop_first());
    }
}

/// Mutual exclusion, generally: any number of concurrent start attempts
/// against an idle slot run in some order, each transition atomic under
/// the slot's lock. If every attempt spawned a worker, exactly one of
/// them succeeds; the slot then holds that one session; and every later
/// attempt is directed to terminate the worker it spawned, so no
/// process is left orphaned.
pub proof fn lemma_start_mutual_exclusion_all<H>(spawns: Seq<SpawnOutcome<H>>)
    requires
        spawns.len() > 0,
        forall|k: int| 0 <= k < spawns.len() ==> spawns[k] is Spawned,
    ensures
        start_success_count(None::<(H, Seq<char>)>, spawns) == 1,
        start_next_all(None::<(H, Seq<char>)>, spawns) == start_next(
            None::<(H, Seq<char>)>,
            spawns[0],
        ),
        forall|k: int| 1 <= k < spawns.len() ==> (#[trigger] start_orphan(
            start_next_all(None::<(H, Seq<char>)>, spawns.take(k)),
            spawns[k],
        )) is Some,
{
    let after_first = start_next(None::<(H, Seq<char>)>, spawns[0]);
    assert(start_result(None::<(H, Seq<char>)>, spawns[0]) is Ok);
    assert(after_first is Some);
    lemma_no_start_succeeds_while_active(after_first, spawns.drop_first());
    assert forall|k: int| 1 <= k < spawns.len() implies (#[trigger] start_orphan(
        start_next_all(None::<(H, Seq<char>)>, spawns.take(k)),
        spawns[k],
    )) is Some by {
        let prefix = spawns.take(k);
        assert(prefix[0] == spawns[0]);
        lemma_no_start_succeeds_while_active(after_first, prefix.drop_first());
    }
}

/// State restoration on failure: taking the session leaves the slot
/// idle before any later stage can fail (`begin_stop` ensures it), so
/// whichever failure point the stop then meets — the artifact missing,
/// the worker not launching or exiting non-zero, the output not
/// decoding — a following start that spawned a worker succeeds.
pub proof fn lemma_stop_failure_restores_idle<H>(
    artifact_exists: bool,
    launched: bool,
    exit_ok: bool,
    decoded: Option<Seq<char>>,
    next_spawn: SpawnOutcome<H>,
)
    requires
        stop_verdict(true, artifact_exists, launched, exit_ok, decoded) is Err,
        next_spawn is Spawned,
    ensures
        start_result(None::<(H, Seq<char>)>, next_spawn) is Ok,
        start_next(None::<(H, Seq<char>)>, next_spawn) is Some,
{
}

/// No-session stop: with no active session the verdict is
/// `NotRecording`, whatever the other stages would have observed, and
/// nothing is injected or notified — the stop has no side effect.
pub proof fn lemma_no_session_stop(
    artifact_exists: bool,
    launched: bool,
    exit_ok: bool,
    decoded: Option<Seq<char>>,
    append_newline: bool,
)
    ensures
        stop_verdict(false, artifact_exists, launched, exit_ok, decoded) == Err::<
            Seq<char>,
            ControlError,
        >(ControlError::NotRecording),
        stop_injection(false, artifact_exists, launched, exit_ok, decoded, append_newline)
            is None,
        !stop_notifies_processing(false, artifact_exists),
        !stop_notifies_ready(false, artifact_exists, launched, exit_ok, decoded),
{
}

/// Round trip: from an idle slot a start with a spawned worker
/// succeeds, and the stop that finds the artifact, sees a clean exit
/// and decodes a text returns exactly that text and orders exactly one
/// injection carrying it and the requested newline flag.
pub proof fn lemma_round_trip<H>(spawn: SpawnOutcome<H>, text: Seq<char>, append_newline: bool)
    requires
        spawn is Spawned,
    ensures
        start_result(None::<(H, Seq<char>)>, spawn) is Ok,
        start_next(None::<(H, Seq<char>)>, spawn) is Some,
        stop_verdict(true, true, true, true, Some(text)) == Ok::<Seq<char>, ControlError>(text),
        stop_injection(true, true, true, true, Some(text), append_newline) == Some(
            (text, append_newline),
        ),
        stop_notifies_ready(true, true, true, true, Some(text)),
{
}

/// Artifact-missing path: a worker killed before writing its file fails
/// the stop with `ArtifactMissing`, and neither an injection nor the
/// later notifications are ever ordered.
pub proof fn lemma_artifact_missing(
    launched: bool,
    exit_ok: bool,
    decoded: Option<Seq<char>>,
    append_newline: bool,
)
    ensures
        stop_verdict(true, false, launched, exit_ok, decoded) == Err::<
            Seq<char>,
            ControlError,
        >(ControlError::ArtifactMissing),
        stop_injection(true, false, launched, exit_ok, decoded, append_newline) is None,
        !stop_notifies_processing(true, false),
        !stop_notifies_ready(true, false, launched, exit_ok, decoded),
{
}

/// Malformed output: a cleanly exited transcription whose stdout did
/// not decode to a text member fails with `MalformedResult`, and no
/// injection is ordered.
pub proof fn lemma_malformed_result(append_newline: bool)
    ensures
        stop_verdict(true, true, true, true, None) == Err::<
            Seq<char>,
            ControlError,
        >(ControlError::MalformedResult),
        stop_injection(true, true, true, true, None, append_newline) is None,
        !stop_notifies_ready(true, true, true, true, None),
{
}

} // verus!
