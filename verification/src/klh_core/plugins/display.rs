use vstd::prelude::*;
use vstd::string::StringSliceAdditionalSpecFns;
use vstd::utf8::encode_utf8;

use crate::klh_core::messaging::message_type::padded_id;
use crate::klh_core::messaging::{MessageError, MessageType};
use crate::klh_core::plugins::buffers::models::AppendStringToBufferRequest;
use crate::klh_core::plugins::display::models::{
    strings_view, AcceptStringInputRequest, AttachBufferRequest, CreateWindowRequest,
    GetWindowRequest, GetWindowResponse, ListWindowsResponse, Window,
};
use crate::text_util::str_equals;

pub mod models;

verus! {

/// The view of a window: name, active buffer name, attached buffer names.
pub type WindowView = (Seq<char>, Option<Seq<char>>, Seq<Seq<char>>);

/// The commands that the display plugin understands, with their content.
pub enum DisplayCommand {
    ListWindows,
    CreateWindow(CreateWindowRequest),
    AttachBuffer(AttachBufferRequest),
    GetWindow(GetWindowRequest),
    AcceptStringInput(AcceptStringInputRequest),
    /// A message type that the plugin registers but does not handle, or
    /// does not know.
    Unknown,
}

/// Which of its commands a message type names for the display plugin.
#[derive(Clone, Copy, Debug, PartialEq, Eq, Structural)]
pub enum DisplayCommandKind {
    ListWindows,
    CreateWindow,
    AttachBuffer,
    GetWindow,
    AcceptStringInput,
    Unknown,
}

/// What the display plugin sends out after a command.
pub enum DisplayReply {
    /// Nothing.
    Done,
    /// A response with the names of all windows.
    WindowNames(ListWindowsResponse),
    /// A response with the window asked for, if any.
    FoundWindow(GetWindowResponse),
    /// A request for the buffers plugin: append the typed text to the
    /// window's active buffer.
    AppendToBuffer(AppendStringToBufferRequest),
}

/// No two windows share a name.
pub open spec fn window_names_unique(windows: Seq<WindowView>) -> bool {
    forall|i: int, j: int|
        0 <= i < windows.len() && 0 <= j < windows.len() && i != j ==> #[trigger] windows[i].0
            != #[trigger] windows[j].0
}

/// The index of the window named `name`, if there is one.
pub open spec fn window_index(windows: Seq<WindowView>, name: Seq<char>) -> Option<int> {
    if exists|i: int| 0 <= i < windows.len() && #[trigger] windows[i].0 == name {
        Some(choose|i: int| 0 <= i < windows.len() && #[trigger] windows[i].0 == name)
    } else {
        None
    }
}

/// The message type `m` has the id `id`.
pub open spec fn is_display_id(m: MessageType, id: &str) -> bool {
    m.id_view() == padded_id(id.spec_bytes())
}

/// The display plugin: it holds named windows and the buffers shown in them.
pub struct Displays {
    message_types: Vec<MessageType>,
    windows: Vec<Window>,
}

impl Displays {
    /// The windows.
    pub closed spec fn windows_view(&self) -> Seq<WindowView> {
        self.windows@.map_values(|w: Window| w@)
    }

    /// The message types the plugin registers for.
    pub closed spec fn message_types_view(&self) -> Seq<MessageType> {
        self.message_types@
    }

    /// What the plugin keeps: no two of its windows share a name.
    #[verifier::type_invariant]
    pub open spec fn well_formed(&self) -> bool {
        window_names_unique(self.windows_view())
    }

    /// A plugin over windows with distinct names is well formed.
    proof fn lemma_well_formed_over(message_types: Vec<MessageType>, windows: Vec<Window>)
        requires
            window_names_unique(windows@.map_values(|w: Window| w@)),
        ensures
            (Displays { message_types, windows }).well_formed(),
    {
    }

    /// A plugin with no windows, registering the commands
    /// "display::create_window", "display::list_windows",
    /// "display::get_window", "display::delete_window",
    /// "display::attach_buffer", "display::detach_buffer",
    /// "display::list_buffers_in_window" and "display::accept_string_input".
    pub fn new() -> (d: Displays)
        ensures
            d.windows_view() == Seq::<WindowView>::empty(),
            d.message_types_view().len() == 8,
            forall|i: int| 0 <= i < 8 ==> #[trigger] d.message_types_view()[i] is Command,
            is_display_id(d.message_types_view()[0], "display::create_window"),
            is_display_id(d.message_types_view()[1], "display::list_windows"),
            is_display_id(d.message_types_view()[2], "display::get_window"),
            is_display_id(d.message_types_view()[3], "display::delete_window"),
            is_display_id(d.message_types_view()[4], "display::attach_buffer"),
            is_display_id(d.message_types_view()[5], "display::detach_buffer"),
            is_display_id(d.message_types_view()[6], "display::list_buffers_in_window"),
            is_display_id(d.message_types_view()[7], "display::accept_string_input"),
    {
        proof {
            reveal_strlit("display::create_window");
            reveal_strlit("display::list_windows");
            reveal_strlit("display::get_window");
            reveal_strlit("display::delete_window");
            reveal_strlit("display::attach_buffer");
            reveal_strlit("display::detach_buffer");
            reveal_strlit("display::list_buffers_in_window");
            reveal_strlit("display::accept_string_input");
            reveal_with_fuel(encode_utf8, 40);
        }
        let mut message_types: Vec<MessageType> = Vec::new();
        message_types.push(MessageType::command_from_str("display::create_window").unwrap());
        message_types.push(MessageType::command_from_str("display::list_windows").unwrap());
        message_types.push(MessageType::command_from_str("display::get_window").unwrap());
        message_types.push(MessageType::command_from_str("display::delete_window").unwrap());
        message_types.push(MessageType::command_from_str("display::attach_buffer").unwrap());
        message_types.push(MessageType::command_from_str("display::detach_buffer").unwrap());
        message_types.push(
            MessageType::command_from_str("display::list_buffers_in_window").unwrap(),
        );
        message_types.push(MessageType::command_from_str("display::accept_string_input").unwrap());
        let d = Displays { message_types, windows: Vec::new() };
        assert(d.windows_view() =~= Seq::<WindowView>::empty());
        d
    }

    /// The message types the plugin registers for.
    pub fn list_message_types(&self) -> (r: Vec<MessageType>)
        ensures
            r@ == self.message_types_view(),
    {
        let r = self.message_types.clone();
        assert(r@ =~= self.message_types@);
        r
    }

    /// Which command a message type names: its id is compared with
    /// "display::list_windows", "display::create_window",
    /// "display::attach_buffer", "display::get_window" and
    /// "display::accept_string_input", in that order, whatever its kind.
    pub fn command_kind(message_type: &MessageType) -> (k: DisplayCommandKind)
        ensures
            k == (if is_display_id(*message_type, "display::list_windows") {
                DisplayCommandKind::ListWindows
            } else if is_display_id(*message_type, "display::create_window") {
                DisplayCommandKind::CreateWindow
            } else if is_display_id(*message_type, "display::attach_buffer") {
                DisplayCommandKind::AttachBuffer
            } else if is_display_id(*message_type, "display::get_window") {
                DisplayCommandKind::GetWindow
            } else if is_display_id(*message_type, "display::accept_string_input") {
                DisplayCommandKind::AcceptStringInput
            } else {
                DisplayCommandKind::Unknown
            }),
    {
        proof {
            reveal_strlit("display::list_windows");
            reveal_strlit("display::create_window");
            reveal_strlit("display::attach_buffer");
            reveal_strlit("display::get_window");
            reveal_strlit("display::accept_string_input");
            reveal_with_fuel(encode_utf8, 40);
        }
        if message_type.id_equals_str("display::list_windows") {
            DisplayCommandKind::ListWindows
        } else if message_type.id_equals_str("display::create_window") {
            DisplayCommandKind::CreateWindow
        } else if message_type.id_equals_str("display::attach_buffer") {
            DisplayCommandKind::AttachBuffer
        } else if message_type.id_equals_str("display::get_window") {
            DisplayCommandKind::GetWindow
        } else if message_type.id_equals_str("display::accept_string_input") {
            DisplayCommandKind::AcceptStringInput
        } else {
            DisplayCommandKind::Unknown
        }
    }

    /// The index of the window named `name`, if there is one.
    fn find(&self, name: &str) -> (r: Option<usize>)
        ensures
            r matches Some(i) ==> i < self.windows_view().len() && self.windows_view()[i as int].0
                == name@,
            r is None ==> forall|i: int|
                0 <= i < self.windows_view().len() ==> #[trigger] self.windows_view()[i].0
                    != name@,
    {
        let mut i: usize = 0;
        while i < self.windows.len()
            invariant
                i <= self.windows@.len(),
                forall|j: int| 0 <= j < i ==> #[trigger] self.windows_view()[j].0 != name@,
            decreases self.windows@.len() - i,
        {
            if str_equals(self.windows[i].name.as_str(), name) {
                return Some(i);
            }
            i = i + 1;
        }
        None
    }

    /// Carries out a command on the windows.
    /// - `ListWindows` answers with the names of all windows.
    /// - `CreateWindow` adds a window with the requested name, showing no
    ///   buffer; it fails with `BadRequest("Window name already exists")`
    ///   when a window has that name.
    /// - `AttachBuffer` attaches the buffer to the named window, which must
    ///   exist, and makes it the window's active buffer.
    /// - `GetWindow` answers with the named window, or with none.
    /// - `AcceptStringInput` asks for the input to be appended to the named
    ///   window's active buffer; it fails with
    ///   `BadRequest("Could not find window by provided name")` when no
    ///   window has that name, and with `BadRequest("Cannot accept input in
    ///   a window without an active buffer")` when the window shows none.
    /// - `Unknown` does nothing.
    /// Only `CreateWindow` and `AttachBuffer` change the windows.
    pub fn accept_command(&mut self, command: DisplayCommand) -> (r: Result<
        DisplayReply,
        MessageError,
    >)
        requires
            command matches DisplayCommand::AttachBuffer(req) ==> window_index(
                old(self).windows_view(),
                req.window_name@,
            ) is Some,
        ensures
            final(self).message_types_view() == old(self).message_types_view(),
            ({
                let before = old(self).windows_view();
                let after = final(self).windows_view();
                match command {
                    DisplayCommand::ListWindows => {
                        &&& after == before
                        &&& r matches Ok(DisplayReply::WindowNames(resp)) && strings_view(
                            resp.window_names@,
                        ) == before.map_values(|w: WindowView| w.0)
                    },
                    DisplayCommand::CreateWindow(req) => match window_index(
                        before,
                        req.window_name@,
                    ) {
                        Some(_) => {
                            &&& after == before
                            &&& r matches Err(MessageError::BadRequest(msg))
                                && msg@ == "Window name already exists"@
                        },
                        None => {
                            &&& after == before.push(
                                (req.window_name@, None::<Seq<char>>, Seq::<Seq<char>>::empty()),
                            )
                            &&& r matches Ok(DisplayReply::Done)
                        },
                    },
                    DisplayCommand::AttachBuffer(req) => {
                        let i = window_index(before, req.window_name@).unwrap();
                        &&& after == before.update(
                            i,
                            (
                                before[i].0,
                                Some(req.buffer_name@),
                                before[i].2.push(req.buffer_name@),
                            ),
                        )
                        &&& r matches Ok(DisplayReply::Done)
                    },
                    DisplayCommand::GetWindow(req) => {
                        &&& after == before
                        &&& r matches Ok(DisplayReply::FoundWindow(resp)) && match window_index(
                            before,
                            req.window_name@,
                        ) {
                            Some(i) => resp.window matches Some(w) && w@ == before[i],
                            None => resp.window is None,
                        }
                    },
                    DisplayCommand::AcceptStringInput(req) => {
                        &&& after == before
                        &&& match window_index(before, req.window_name@) {
                            None => r matches Err(MessageError::BadRequest(msg))
                                && msg@ == "Could not find window by provided name"@,
                            Some(i) => match before[i].1 {
                                None => r matches Err(MessageError::BadRequest(msg)) && msg@
                                    == "Cannot accept input in a window without an active buffer"@,
                                Some(active) => r matches Ok(
                                    DisplayReply::AppendToBuffer(append),
                                ) && append.buffer_name@ == active && append.content@
                                    == req.input@,
                            },
                        }
                    },
                    DisplayCommand::Unknown => {
                        &&& after == before
                        &&& r matches Ok(DisplayReply::Done)
                    },
                }
            }),
    {
        proof {
            use_type_invariant(&*self);
        }
        let ghost before = self.windows_view();
        match command {
            DisplayCommand::ListWindows => {
                let mut names: Vec<String> = Vec::new();
                let mut i: usize = 0;
                while i < self.windows.len()
                    invariant
                        i <= self.windows@.len(),
                        before == self.windows_view(),
                        strings_view(names@) == before.map_values(|w: WindowView| w.0).take(
                            i as int,
                        ),
                    decreases self.windows@.len() - i,
                {
                    assert(before[i as int] == self.windows@[i as int]@);
                    let ghost prev = names@;
                    let name = self.windows[i].name.clone();
                    names.push(name);
                    assert(strings_view(names@) =~= strings_view(prev).push(name@));
                    assert(before.map_values(|w: WindowView| w.0).take(i + 1) =~= before.map_values(
                        |w: WindowView| w.0,
                    ).take(i as int).push(before[i as int].0));
                    i = i + 1;
                }
                assert(before.map_values(|w: WindowView| w.0).take(i as int) =~= before.map_values(
                    |w: WindowView| w.0,
                ));
                Ok(DisplayReply::WindowNames(ListWindowsResponse { window_names: names }))
            },
            DisplayCommand::CreateWindow(req) => {
                match self.find(req.window_name.as_str()) {
                    Some(i) => {
                        assert(before[i as int].0 == req.window_name@);
                        Err(MessageError::BadRequest(String::from_str("Window name already exists")))
                    },
                    None => {
                        let mut windows: Vec<Window> = Vec::new();
                        proof {
                            Displays::lemma_well_formed_over(self.message_types, windows);
                        }
                        std::mem::swap(&mut windows, &mut self.windows);
                        windows.push(Window::new(req.window_name));
                        assert(windows@.map_values(|w: Window| w@) =~= before.push(
                            (req.window_name@, None::<Seq<char>>, Seq::<Seq<char>>::empty()),
                        ));
                        proof {
                            Displays::lemma_well_formed_over(self.message_types, windows);
                        }
                        self.windows = windows;
                        Ok(DisplayReply::Done)
                    },
                }
            },
            DisplayCommand::AttachBuffer(req) => {
                let i = match self.find(req.window_name.as_str()) {
                    Some(i) => i,
                    None => {
                        proof {
                            let k = window_index(before, req.window_name@).unwrap();
                            assert(before[k].0 == req.window_name@);
                        }
                        return Err(MessageError::MessageTypeNotFound);
                    },
                };
                proof {
                    lemma_window_index_unique(before, req.window_name@, i as int);
                }
                let mut w = self.windows[i].duplicate();
                let ghost old_names = w.associated_buffers_names@;
                w.associated_buffers_names.push(req.buffer_name.clone());
                assert(strings_view(w.associated_buffers_names@) =~= strings_view(old_names).push(
                    req.buffer_name@,
                ));
                w.active_buffer_name = Some(req.buffer_name);
                let mut windows: Vec<Window> = Vec::new();
                proof {
                    Displays::lemma_well_formed_over(self.message_types, windows);
                }
                std::mem::swap(&mut windows, &mut self.windows);
                windows.set(i, w);
                assert(windows@.map_values(|w: Window| w@) =~= before.update(
                    i as int,
                    (
                        before[i as int].0,
                        Some(req.buffer_name@),
                        before[i as int].2.push(req.buffer_name@),
                    ),
                ));
                proof {
                    Displays::lemma_well_formed_over(self.message_types, windows);
                }
                self.windows = windows;
                Ok(DisplayReply::Done)
            },
            DisplayCommand::GetWindow(req) => {
                let found = match self.find(req.window_name.as_str()) {
                    Some(i) => {
                        proof {
                            lemma_window_index_unique(before, req.window_name@, i as int);
                        }
                        Some(self.windows[i].duplicate())
                    },
                    None => None,
                };
                Ok(DisplayReply::FoundWindow(GetWindowResponse { window: found }))
            },
            DisplayCommand::AcceptStringInput(req) => {
                let i = match self.find(req.window_name.as_str()) {
                    Some(i) => i,
                    None => {
                        return Err(
                            MessageError::BadRequest(
                                String::from_str("Could not find window by provided name"),
                            ),
                        );
                    },
                };
                proof {
                    lemma_window_index_unique(before, req.window_name@, i as int);
                }
                let active_buffer_name = match &self.windows[i].active_buffer_name {
                    Some(b) => b.clone(),
                    None => {
                        return Err(
                            MessageError::BadRequest(
                                String::from_str(
                                    "Cannot accept input in a window without an active buffer",
                                ),
                            ),
                        );
                    },
                };
                Ok(
                    DisplayReply::AppendToBuffer(
                        AppendStringToBufferRequest {
                            buffer_name: active_buffer_name,
                            content: req.input,
                        },
                    ),
                )
            },
            DisplayCommand::Unknown => Ok(DisplayReply::Done),
        }
    }
}

/// Once a buffer is attached to a window, asking for the window finds that
/// buffer active and last among the window's attached buffers.
pub proof fn law_get_window_after_attach(
    windows: Seq<WindowView>,
    window_name: Seq<char>,
    buffer_name: Seq<char>,
)
    requires
        window_names_unique(windows),
        window_index(windows, window_name) is Some,
    ensures
        ({
            let i = window_index(windows, window_name).unwrap();
            let after = windows.update(
                i,
                (windows[i].0, Some(buffer_name), windows[i].2.push(buffer_name)),
            );
            &&& window_names_unique(after)
            &&& window_index(after, window_name) == Some(i)
            &&& after[i].1 == Some(buffer_name)
            &&& after[i].2.last() == buffer_name
        }),
{
    let i = window_index(windows, window_name).unwrap();
    let after = windows.update(i, (windows[i].0, Some(buffer_name), windows[i].2.push(buffer_name)));
    assert(windows[i].0 == window_name);
    assert forall|a: int, b: int|
        0 <= a < after.len() && 0 <= b < after.len() && a != b implies #[trigger] after[a].0
        != #[trigger] after[b].0 by {
        assert(after[a].0 == windows[a].0);
        assert(after[b].0 == windows[b].0);
    }
    lemma_window_index_unique(after, window_name, i);
}

/// Once a window is created under a free name, asking for that name finds
/// it, showing no buffer, and names stay unique.
pub proof fn law_get_window_after_create(windows: Seq<WindowView>, name: Seq<char>)
    requires
        window_names_unique(windows),
        window_index(windows, name) is None,
    ensures
        ({
            let after = windows.push((name, None::<Seq<char>>, Seq::<Seq<char>>::empty()));
            &&& window_names_unique(after)
            &&& window_index(after, name) == Some(windows.len() as int)
            &&& after[windows.len() as int] == (name, None::<Seq<char>>, Seq::<Seq<char>>::empty())
        }),
{
    let after = windows.push((name, None::<Seq<char>>, Seq::<Seq<char>>::empty()));
    assert forall|i: int, j: int|
        0 <= i < after.len() && 0 <= j < after.len() && i != j implies #[trigger] after[i].0
        != #[trigger] after[j].0 by {
        if i == windows.len() && j < windows.len() {
            assert(windows[j].0 != name);
        } else if j == windows.len() && i < windows.len() {
            assert(windows[i].0 != name);
        }
    }
    lemma_window_index_unique(after, name, windows.len() as int);
}

/// With unique names, the window named `name` is the one found.
pub proof fn lemma_window_index_unique(windows: Seq<WindowView>, name: Seq<char>, i: int)
    requires
        window_names_unique(windows),
        0 <= i < windows.len(),
        windows[i].0 == name,
    ensures
        window_index(windows, name) == Some(i),
{
    let j = choose|j: int| 0 <= j < windows.len() && #[trigger] windows[j].0 == name;
    assert(windows[j].0 == name);
}

} // verus!
