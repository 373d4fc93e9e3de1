use vstd::prelude::*;

use crate::buffer::text_model::join_lines;
use crate::buffer::{Buffer, LineBuffer};
use crate::buffer_provider::BufferType;
use crate::buffer_store::{BufferStore, BufferStoreArgs};
use crate::command_executor::{command_allowed, command_effect, execute_command_v2};
use crate::input_handler::{command_for_input, process_input_v2};
use crate::models::{Command, ControlType, InputType};
use crate::startup::StartupArgs;

pub mod session_state;

use crate::session::session_state::SessionState;

verus! {

/// The screen a session shows its buffer on.
pub struct SessionScreen;

/// What a session does next.
#[derive(Clone, Copy, Debug, PartialEq, Eq, Structural)]
pub enum SessionStep {
    /// Take the first buffer (`init`).
    Init,
    /// Load hooks (`add_hooks`).
    AddHooks,
    /// Load configuration (`load_config`).
    LoadConfig,
    /// Wait for the user and act on the input (`await_user`).
    AwaitUser,
    /// Tear down (`tear_down`).
    TearDown,
    /// Nothing: the session is over.
    Stop,
}

/// The step that follows each state of the lifecycle.
pub open spec fn step_for(state: SessionState) -> SessionStep {
    match state {
        SessionState::New => SessionStep::Init,
        SessionState::PostInit => SessionStep::AddHooks,
        SessionState::PostHooks => SessionStep::LoadConfig,
        SessionState::UserReady => SessionStep::AwaitUser,
        SessionState::TearDownReady => SessionStep::TearDown,
        SessionState::PostTearDown => SessionStep::Stop,
    }
}

/// An editing session: the buffers it edits and where it is in its
/// lifecycle. It goes from `New` through init, hooks and configuration to
/// `UserReady`, where it takes user input until a quit, then tears down.
pub struct Session {
    startup_args: StartupArgs,
    buffer_store: BufferStore,
    state: SessionState,
}

impl Session {
    /// Where the session is in its lifecycle.
    pub closed spec fn state_view(&self) -> SessionState {
        self.state
    }

    /// The buffers the session edits; the first is the current one.
    pub closed spec fn buffers_view(&self) -> Seq<LineBuffer> {
        self.buffer_store.buffers_view()
    }

    /// The file named at startup, empty for none.
    pub closed spec fn startup_file_name(&self) -> Seq<char> {
        self.startup_args.file_name_view()
    }

    /// A new session, holding no buffer yet.
    pub fn new(args: StartupArgs) -> (s: Session)
        ensures
            s.state_view() == SessionState::New,
            s.buffers_view() == Seq::<LineBuffer>::empty(),
            s.startup_file_name() == args.file_name_view(),
    {
        Session { startup_args: args, buffer_store: BufferStore::new(), state: SessionState::New }
    }

    /// Where the session is in its lifecycle.
    pub fn state(&self) -> (s: SessionState)
        ensures
            s == self.state_view(),
    {
        self.state
    }

    /// What the session does next, by where it is in its lifecycle (see
    /// `step_for`).
    pub fn next_step(&self) -> (s: SessionStep)
        ensures
            s == step_for(self.state_view()),
    {
        match self.state {
            SessionState::New => SessionStep::Init,
            SessionState::PostInit => SessionStep::AddHooks,
            SessionState::PostHooks => SessionStep::LoadConfig,
            SessionState::UserReady => SessionStep::AwaitUser,
            SessionState::TearDownReady => SessionStep::TearDown,
            SessionState::PostTearDown => SessionStep::Stop,
        }
    }

    /// How to make the session's first buffer: a normal buffer, loaded
    /// from the file named at startup, if any.
    pub fn init_args(&self) -> (a: BufferStoreArgs)
        ensures
            a.file_name_view() == self.startup_file_name(),
    {
        proof {
            reveal_strlit("");
        }
        match self.startup_args.get_file_name() {
            None => BufferStoreArgs::new(BufferType::Normal, ""),
            Some(f) => BufferStoreArgs::new(BufferType::Normal, f),
        }
    }

    /// Takes the first buffer, made as `init_args` says, and moves on to
    /// `PostInit`. Runs once, on a `New` session.
    pub fn init(&mut self, buffer: LineBuffer) -> (r: Result<(), &str>)
        ensures
            r is Ok,
            final(self).state_view() == SessionState::PostInit,
            final(self).buffers_view() == old(self).buffers_view().push(buffer),
            final(self).startup_file_name() == old(self).startup_file_name(),
    {
        self.state = SessionState::PostInit;
        let _ = self.buffer_store.add_new(buffer);
        Ok(())
    }

    /// Where dynamic code and subscriptions would load; moves on to
    /// `PostHooks`.
    pub fn add_hooks(&mut self) -> (r: Result<(), &str>)
        ensures
            r is Ok,
            final(self).state_view() == SessionState::PostHooks,
            final(self).buffers_view() == old(self).buffers_view(),
            final(self).startup_file_name() == old(self).startup_file_name(),
    {
        self.state = SessionState::PostHooks;
        Ok(())
    }

    /// Where configuration would load; moves on to `UserReady`.
    pub fn load_config(&mut self) -> (r: Result<(), &str>)
        ensures
            r is Ok,
            final(self).state_view() == SessionState::UserReady,
            final(self).buffers_view() == old(self).buffers_view(),
            final(self).startup_file_name() == old(self).startup_file_name(),
    {
        self.state = SessionState::UserReady;
        Ok(())
    }

    /// The text of the current buffer, to show the user.
    /// # Errors
    /// `"No"` when the session holds no buffer.
    pub fn current_chars(&mut self) -> (r: Result<String, &str>)
        ensures
            final(self).buffers_view() == old(self).buffers_view(),
            final(self).state_view() == old(self).state_view(),
            final(self).startup_file_name() == old(self).startup_file_name(),
            old(self).buffers_view().len() == 0 ==> (r matches Err(e) && e@ == "No"@),
            old(self).buffers_view().len() > 0 ==> (r matches Ok(s) && s@ == join_lines(
                old(self).buffers_view()[0].lines_view(),
            )),
    {
        proof {
            reveal_strlit("No");
        }
        match self.buffer_store.get_current_mut() {
            Err(_) => Err("No"),
            Ok(b) => {
                let chars = b.get_chars();
                match chars {
                    Ok(s) => Ok(s),
                    Err(_) => Err("No"),
                }
            },
        }
    }

    /// Whether the current buffer can take `input`: a buffer that holds no
    /// line yet takes neither a newline, a deletion nor a move forward. A
    /// session without a buffer takes any input (and refuses it in
    /// `await_user`).
    pub fn input_allowed(&mut self, input: &InputType) -> (b: bool)
        ensures
            final(self).buffers_view() == old(self).buffers_view(),
            final(self).state_view() == old(self).state_view(),
            final(self).startup_file_name() == old(self).startup_file_name(),
            b == (old(self).buffers_view().len() > 0 ==> command_allowed(
                command_for_input(*input),
                old(self).buffers_view()[0].lines_view(),
            )),
    {
        let ghost before = self.buffer_store.buffers_view();
        match self.buffer_store.get_current_mut() {
            Err(_) => true,
            Ok(b) => {
                let empty = b.line_count() == 0;
                let r = match input {
                    InputType::Insert(c) => !(empty && *c == '\n'),
                    InputType::Control(ControlType::Backspace) => !empty,
                    InputType::Control(ControlType::ArrowRight) => !empty,
                    _ => true,
                };
                proof {
                    assert(self.buffer_store.buffers_view() =~= before);
                }
                r
            },
        }
    }

    /// Acts on one input from the user: runs the command it stands for on
    /// the current buffer, and moves on to `TearDownReady` when that
    /// command is `Quit`.
    /// # Errors
    /// `"No"` when the session holds no buffer; nothing changes then.
    pub fn await_user(&mut self, input: InputType) -> (r: Result<(), &str>)
        requires
            old(self).buffers_view().len() > 0 ==> command_allowed(
                command_for_input(input),
                old(self).buffers_view()[0].lines_view(),
            ),
        ensures
            final(self).startup_file_name() == old(self).startup_file_name(),
            old(self).buffers_view().len() == 0 ==> (r matches Err(e) && e@ == "No"@)
                && final(self).buffers_view() == old(
                self,
            ).buffers_view() && final(self).state_view() == old(self).state_view(),
            old(self).buffers_view().len() > 0 ==> ({
                let before = old(self).buffers_view()[0];
                let after = final(self).buffers_view()[0];
                &&& r is Ok
                &&& final(self).buffers_view().len() == old(self).buffers_view().len()
                &&& forall|i: int|
                    1 <= i < old(self).buffers_view().len() ==> final(self).buffers_view()[i] == old(
                        self,
                    ).buffers_view()[i]
                &&& command_effect(
                    command_for_input(input),
                    before.lines_view(),
                    before.point_view(),
                    after.lines_view(),
                    after.point_view(),
                )
                &&& final(self).state_view() == (if command_for_input(input) == Command::Quit {
                    SessionState::TearDownReady
                } else {
                    old(self).state_view()
                })
            }),
    {
        proof {
            reveal_strlit("No");
        }
        match self.buffer_store.get_current_mut() {
            Err(_) => Err("No"),
            Ok(b) => {
                proof {
                    use_type_invariant(&*b);
                }
                let command: Command = match process_input_v2(input) {
                    Ok(c) => c,
                    Err(_) => Command::Default,
                };
                match execute_command_v2(&command, b) {
                    Some(_exit_code) => {
                        self.state = SessionState::TearDownReady;
                    },
                    None => {},
                }
                Ok(())
            },
        }
    }

    /// Ends the session: moves on to `PostTearDown`, the last state.
    pub fn tear_down(&mut self) -> (r: Result<(), &str>)
        ensures
            r is Ok,
            final(self).state_view() == SessionState::PostTearDown,
            final(self).buffers_view() == old(self).buffers_view(),
            final(self).startup_file_name() == old(self).startup_file_name(),
    {
        self.state = SessionState::PostTearDown;
        Ok(())
    }
}

} // verus!
