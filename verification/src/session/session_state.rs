use vstd::prelude::*;

verus! {

/// Where a session is in its lifecycle, in order.
#[derive(Copy, Clone, Debug, PartialEq, Eq, Structural)]
pub enum SessionState {
    /// Brand new, nothing set up.
    New,
    /// After init.
    PostInit,
    /// After loading hooks.
    PostHooks,
    /// Taking user input.
    UserReady,
    /// A quit was asked for.
    TearDownReady,
    /// Done; always the last state.
    PostTearDown,
}

} // verus!
