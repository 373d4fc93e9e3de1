use vstd::prelude::*;

verus! {

/// Errors which can occur when using a Klh session.
#[derive(Debug, Eq, PartialEq, Structural)]
pub enum SessionError {
    /// A message could not be sent to the session's central loop.
    ErrorSendingMessage,
    /// The session was asked to run after it had already run; a session
    /// runs only once.
    SessionAlreadyStarted,
}

/// Whether a session has been run: it can only be run once.
pub struct RunState {
    started: bool,
}

impl RunState {
    /// Whether the session has run.
    pub closed spec fn started_view(&self) -> bool {
        self.started
    }

    /// A session that has not run.
    pub fn new() -> (s: RunState)
        ensures
            !s.started_view(),
    {
        RunState { started: false }
    }

    /// Marks the session as run.
    /// # Errors
    /// `SessionAlreadyStarted` when it had already run.
    pub fn start(&mut self) -> (r: Result<(), SessionError>)
        ensures
            final(self).started_view(),
            !old(self).started_view() ==> r is Ok,
            old(self).started_view() ==> r matches Err(SessionError::SessionAlreadyStarted),
    {
        if self.started {
            Err(SessionError::SessionAlreadyStarted)
        } else {
            self.started = true;
            Ok(())
        }
    }
}

} // verus!
