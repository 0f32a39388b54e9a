//! The single authoritative record of whether a recording session is
//! active.
//!
//! A session pairs exclusive ownership of a worker handle with the path
//! of the artifact that worker writes. The two are stored and removed
//! together: the slot is never half full. `take` is the only way to end
//! a session, and it moves the handle out, so exactly one caller ever
//! becomes responsible for terminating a given worker.
//!
//! The record itself is not a lock: the process keeps one instance
//! behind a mutex, so each call below runs with exclusive access, and
//! any interleaving of concurrent callers is some sequence of these
//! atomic transitions.

use vstd::prelude::*;

verus! {

/// The session slot: either idle, or holding the one active session's
/// worker handle together with its artifact path.
pub struct SessionState<H> {
    slot: Option<(H, String)>,
}

impl<H> View for SessionState<H> {
    type V = Option<(H, Seq<char>)>;

    closed spec fn view(&self) -> Option<(H, Seq<char>)> {
        match self.slot {
            Some(s) => Some((s.0, s.1@)),
            None => None,
        }
    }
}

impl<H> SessionState<H> {
    /// A fresh, idle slot.
    pub fn new() -> (r: SessionState<H>)
        ensures
            r@ is None,
    {
        SessionState { slot: None }
    }

    /// Whether a session is currently active.
    pub fn is_active(&self) -> (r: bool)
        ensures
            r == (self@ is Some),
    {
        self.slot.is_some()
    }

    /// Stores a just-started session, unless one is already active.
    ///
    /// On conflict the slot is left untouched and the handle and path
    /// are handed back, so the caller can terminate the freshly spawned
    /// worker instead of orphaning it.
    pub fn try_begin(&mut self, handle: H, artifact_path: String) -> (r: Result<(), (H, String)>)
        ensures
            old(self)@ is None ==> r is Ok && final(self)@ == Some((handle, artifact_path@)),
            old(self)@ is Some ==> final(self)@ == old(self)@
                && (r matches Err(back) && back.0 == handle && back.1@ == artifact_path@),
    {
        if self.slot.is_some() {
            Err((handle, artifact_path))
        } else {
            self.slot = Some((handle, artifact_path));
            Ok(())
        }
    }

    /// Atomically empties the slot, returning the active session's
    /// handle and artifact path if there was one.
    ///
    /// The slot is idle afterwards whatever it held before, so any
    /// failure on the path that follows a `take` still leaves the
    /// record ready for a fresh session.
    pub fn take(&mut self) -> (r: Option<(H, String)>)
        ensures
            final(self)@ is None,
            old(self)@ is None ==> r is None,
            old(self)@ matches Some(s) ==> (r matches Some(t) && t.0 == s.0 && t.1@ == s.1),
    {
        self.slot.take()
    }
}

} // verus!
