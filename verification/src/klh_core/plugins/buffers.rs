use vstd::prelude::*;
use vstd::string::StringSliceAdditionalSpecFns;
use vstd::utf8::encode_utf8;

use crate::klh_core::messaging::message_type::{padded_id, MESSAGE_TYPE_ID_MAX_LENGTH};
use crate::klh_core::messaging::{MessageError, MessageType};
use crate::klh_core::plugins::buffers::models::{
    AppendStringToBufferRequest, Buffer, CreateBufferRequest, GetBufferRequest, GetBufferResponse,
    ListBuffersResponse,
};
use crate::text_util::str_equals;

pub mod models;

verus! {

/// The commands that the buffers plugin understands, with their content.
pub enum BuffersCommand {
    ListBuffers,
    CreateBuffer(CreateBufferRequest),
    AppendString(AppendStringToBufferRequest),
    GetBuffer(GetBufferRequest),
    /// A message type that the plugin does not know.
    Unknown,
}

/// Which of its commands a message type names for the buffers plugin.
#[derive(Clone, Copy, Debug, PartialEq, Eq, Structural)]
pub enum BuffersCommandKind {
    ListBuffers,
    CreateBuffer,
    AppendString,
    GetBuffer,
    Unknown,
}

/// What the buffers plugin sends out after a command.
pub enum BuffersReply {
    /// Nothing.
    Done,
    /// A response with the names of all buffers.
    BufferNames(ListBuffersResponse),
    /// A response with the buffer asked for, if any.
    FoundBuffer(GetBufferResponse),
    /// An event announcing that this buffer was appended to.
    BufferAppended(Buffer),
}

/// The names of buffers.
pub open spec fn names_of(buffers: Seq<(Seq<char>, Seq<char>)>) -> Seq<Seq<char>> {
    buffers.map_values(|b: (Seq<char>, Seq<char>)| b.0)
}

/// No two buffers share a name.
pub open spec fn names_unique(buffers: Seq<(Seq<char>, Seq<char>)>) -> bool {
    forall|i: int, j: int|
        0 <= i < buffers.len() && 0 <= j < buffers.len() && i != j ==> #[trigger] buffers[i].0
            != #[trigger] buffers[j].0
}

/// The index of the buffer named `name`, if there is one.
pub open spec fn buffer_index(buffers: Seq<(Seq<char>, Seq<char>)>, name: Seq<char>) -> Option<int> {
    if exists|i: int| 0 <= i < buffers.len() && #[trigger] buffers[i].0 == name {
        Some(choose|i: int| 0 <= i < buffers.len() && #[trigger] buffers[i].0 == name)
    } else {
        None
    }
}

/// The message type ids the buffers plugin registers, and the command
/// each names.
pub open spec fn is_buffers_id(m: MessageType, id: &str) -> bool {
    m.id_view() == padded_id(id.spec_bytes())
}

/// The buffers plugin: it holds named buffers and answers requests about
/// them.
pub struct Buffers {
    message_types: Vec<MessageType>,
    buffers: Vec<Buffer>,
}

impl Buffers {
    /// The buffers, each as (name, content).
    pub closed spec fn buffers_view(&self) -> Seq<(Seq<char>, Seq<char>)> {
        self.buffers@.map_values(|b: Buffer| b@)
    }

    /// The message types the plugin registers for.
    pub closed spec fn message_types_view(&self) -> Seq<MessageType> {
        self.message_types@
    }

    /// What the plugin keeps: no two of its buffers share a name.
    #[verifier::type_invariant]
    pub open spec fn well_formed(&self) -> bool {
        names_unique(self.buffers_view())
    }

    /// A plugin over buffers with distinct names is well formed.
    proof fn lemma_well_formed_over(message_types: Vec<MessageType>, buffers: Vec<Buffer>)
        requires
            names_unique(buffers@.map_values(|b: Buffer| b@)),
        ensures
            (Buffers { message_types, buffers }).well_formed(),
    {
    }

    /// A plugin with no buffers, registering the command
    /// "buffers::create_buffer", the query "buffers::list_buffers", the
    /// query "buffers::get_buffer" and the command "buffers:append_string".
    pub fn new() -> (b: Buffers)
        ensures
            b.buffers_view() == Seq::<(Seq<char>, Seq<char>)>::empty(),
            b.message_types_view().len() == 4,
            b.message_types_view()[0] is Command && is_buffers_id(
                b.message_types_view()[0],
                "buffers::create_buffer",
            ),
            b.message_types_view()[1] is Query && is_buffers_id(
                b.message_types_view()[1],
                "buffers::list_buffers",
            ),
            b.message_types_view()[2] is Query && is_buffers_id(
                b.message_types_view()[2],
                "buffers::get_buffer",
            ),
            b.message_types_view()[3] is Command && is_buffers_id(
                b.message_types_view()[3],
                "buffers:append_string",
            ),
    {
        proof {
            reveal_strlit("buffers::create_buffer");
            reveal_strlit("buffers::list_buffers");
            reveal_strlit("buffers::get_buffer");
            reveal_strlit("buffers:append_string");
            reveal_with_fuel(encode_utf8, 30);
        }
        let mut message_types: Vec<MessageType> = Vec::new();
        message_types.push(MessageType::command_from_str("buffers::create_buffer").unwrap());
        message_types.push(MessageType::query_from_str("buffers::list_buffers").unwrap());
        message_types.push(MessageType::query_from_str("buffers::get_buffer").unwrap());
        message_types.push(MessageType::command_from_str("buffers:append_string").unwrap());
        let b = Buffers { message_types, buffers: Vec::new() };
        assert(b.buffers_view() =~= Seq::<(Seq<char>, Seq<char>)>::empty());
        b
    }

    /// The message types the plugin registers for.
    pub fn list_message_types(&self) -> (r: Vec<MessageType>)
        ensures
            r@ == self.message_types_view(),
    {
        let r = self.message_types.clone();
        assert(r@ =~= self.message_types@);
        r
    }

    /// Which command a message type names: its id is compared with
    /// "buffers::list_buffers", "buffers::create_buffer",
    /// "buffers:append_string" and "buffers::get_buffer", in that order,
    /// whatever its kind.
    pub fn command_kind(message_type: &MessageType) -> (k: BuffersCommandKind)
        ensures
            k == (if is_buffers_id(*message_type, "buffers::list_buffers") {
                BuffersCommandKind::ListBuffers
            } else if is_buffers_id(*message_type, "buffers::create_buffer") {
                BuffersCommandKind::CreateBuffer
            } else if is_buffers_id(*message_type, "buffers:append_string") {
                BuffersCommandKind::AppendString
            } else if is_buffers_id(*message_type, "buffers::get_buffer") {
                BuffersCommandKind::GetBuffer
            } else {
                BuffersCommandKind::Unknown
            }),
    {
        proof {
            reveal_strlit("buffers::create_buffer");
            reveal_strlit("buffers::list_buffers");
            reveal_strlit("buffers::get_buffer");
            reveal_strlit("buffers:append_string");
            reveal_with_fuel(encode_utf8, 30);
        }
        if message_type.id_equals_str("buffers::list_buffers") {
            BuffersCommandKind::ListBuffers
        } else if message_type.id_equals_str("buffers::create_buffer") {
            BuffersCommandKind::CreateBuffer
        } else if message_type.id_equals_str("buffers:append_string") {
            BuffersCommandKind::AppendString
        } else if message_type.id_equals_str("buffers::get_buffer") {
            BuffersCommandKind::GetBuffer
        } else {
            BuffersCommandKind::Unknown
        }
    }

    /// The index of the buffer named `name`, if there is one.
    fn find(&self, name: &str) -> (r: Option<usize>)
        ensures
            r matches Some(i) ==> i < self.buffers_view().len() && self.buffers_view()[i as int].0
                == name@,
            r is None ==> forall|i: int|
                0 <= i < self.buffers_view().len() ==> #[trigger] self.buffers_view()[i].0
                    != name@,
    {
        let mut i: usize = 0;
        while i < self.buffers.len()
            invariant
                i <= self.buffers@.len(),
                forall|j: int| 0 <= j < i ==> #[trigger] self.buffers_view()[j].0 != name@,
            decreases self.buffers@.len() - i,
        {
            if str_equals(self.buffers[i].name.as_str(), name) {
                return Some(i);
            }
            i = i + 1;
        }
        None
    }

    /// Carries out a command on the buffers.
    /// - `ListBuffers` answers with the names of all buffers.
    /// - `CreateBuffer` adds an empty buffer with the requested name; it
    ///   fails with `BadRequest("Buffer name already exists")` when a buffer
    ///   has that name.
    /// - `AppendString` appends the content to the named buffer and
    ///   announces the changed buffer; it fails with
    ///   `BadRequest("No buffer matching provided name")` when no buffer has
    ///   that name.
    /// - `GetBuffer` answers with the named buffer, or with none.
    /// - `Unknown` does nothing.
    /// A command that fails leaves the buffers as they were.
    pub fn accept_command(&mut self, command: BuffersCommand) -> (r: Result<
        BuffersReply,
        MessageError,
    >)
        ensures
            final(self).message_types_view() == old(self).message_types_view(),
            ({
                let before = old(self).buffers_view();
                let after = final(self).buffers_view();
                match command {
                    BuffersCommand::ListBuffers => {
                        &&& after == before
                        &&& r matches Ok(BuffersReply::BufferNames(resp))
                            && resp.buffer_names@.map_values(|s: String| s@) == names_of(before)
                    },
                    BuffersCommand::CreateBuffer(req) => match buffer_index(before, req.name@) {
                        Some(_) => {
                            &&& after == before
                            &&& r matches Err(MessageError::BadRequest(msg))
                                && msg@ == "Buffer name already exists"@
                        },
                        None => {
                            &&& after == before.push((req.name@, Seq::<char>::empty()))
                            &&& r matches Ok(BuffersReply::Done)
                        },
                    },
                    BuffersCommand::AppendString(req) => match buffer_index(
                        before,
                        req.buffer_name@,
                    ) {
                        Some(i) => {
                            &&& after == before.update(
                                i,
                                (before[i].0, before[i].1 + req.content@),
                            )
                            &&& r matches Ok(BuffersReply::BufferAppended(b)) && b@ == after[i]
                        },
                        None => {
                            &&& after == before
                            &&& r matches Err(MessageError::BadRequest(msg))
                                && msg@ == "No buffer matching provided name"@
                        },
                    },
                    BuffersCommand::GetBuffer(req) => {
                        &&& after == before
                        &&& r matches Ok(BuffersReply::FoundBuffer(resp)) && match buffer_index(
                            before,
                            req.buffer_name@,
                        ) {
                            Some(i) => resp.buffer matches Some(b) && b@ == before[i],
                            None => resp.buffer is None,
                        }
                    },
                    BuffersCommand::Unknown => {
                        &&& after == before
                        &&& r matches Ok(BuffersReply::Done)
                    },
                }
            }),
    {
        proof {
            use_type_invariant(&*self);
        }
        let ghost before = self.buffers_view();
        match command {
            BuffersCommand::ListBuffers => {
                let mut names: Vec<String> = Vec::new();
                let mut i: usize = 0;
                while i < self.buffers.len()
                    invariant
                        i <= self.buffers@.len(),
                        before == self.buffers_view(),
                        names@.map_values(|s: String| s@) == names_of(before).take(i as int),
                    decreases self.buffers@.len() - i,
                {
                    assert(before[i as int] == self.buffers@[i as int]@);
                    let ghost prev = names@;
                    let name = self.buffers[i].name.clone();
                    assert(name@ == before[i as int].0);
                    names.push(name);
                    assert(names@ == prev.push(name));
                    assert(names@.map_values(|s: String| s@) =~= prev.map_values(|s: String| s@).push(
                        name@,
                    ));
                    assert(names_of(before).take(i + 1) =~= names_of(before).take(i as int).push(
                        before[i as int].0,
                    ));
                    i = i + 1;
                }
                assert(names_of(before).take(i as int) =~= names_of(before));
                Ok(BuffersReply::BufferNames(ListBuffersResponse { buffer_names: names }))
            },
            BuffersCommand::CreateBuffer(req) => {
                match self.find(req.name.as_str()) {
                    Some(i) => {
                        assert(before[i as int].0 == req.name@);
                        Err(MessageError::BadRequest(String::from_str("Buffer name already exists")))
                    },
                    None => {
                        let mut buffers: Vec<Buffer> = Vec::new();
                        proof {
                            Buffers::lemma_well_formed_over(self.message_types, buffers);
                        }
                        std::mem::swap(&mut buffers, &mut self.buffers);
                        buffers.push(Buffer::new(req.name));
                        assert(buffers@.map_values(|b: Buffer| b@) =~= before.push(
                            (req.name@, Seq::<char>::empty()),
                        ));
                        proof {
                            Buffers::lemma_well_formed_over(self.message_types, buffers);
                        }
                        self.buffers = buffers;
                        Ok(BuffersReply::Done)
                    },
                }
            },
            BuffersCommand::AppendString(req) => {
                match self.find(req.buffer_name.as_str()) {
                    Some(i) => {
                        proof {
                            lemma_buffer_index_unique(before, req.buffer_name@, i as int);
                        }
                        let mut b = self.buffers[i].duplicate();
                        b.content.append(req.content);
                        let announced = b.duplicate();
                        let mut buffers: Vec<Buffer> = Vec::new();
                        proof {
                            Buffers::lemma_well_formed_over(self.message_types, buffers);
                        }
                        std::mem::swap(&mut buffers, &mut self.buffers);
                        buffers.set(i, b);
                        assert(buffers@.map_values(|b: Buffer| b@) =~= before.update(
                            i as int,
                            (before[i as int].0, before[i as int].1 + req.content@),
                        ));
                        proof {
                            Buffers::lemma_well_formed_over(self.message_types, buffers);
                        }
                        self.buffers = buffers;
                        Ok(BuffersReply::BufferAppended(announced))
                    },
                    None => {
                        Err(
                            MessageError::BadRequest(
                                String::from_str("No buffer matching provided name"),
                            ),
                        )
                    },
                }
            },
            BuffersCommand::GetBuffer(req) => {
                let found = match self.find(req.buffer_name.as_str()) {
                    Some(i) => {
                        proof {
                            lemma_buffer_index_unique(before, req.buffer_name@, i as int);
                        }
                        Some(self.buffers[i].duplicate())
                    },
                    None => None,
                };
                Ok(BuffersReply::FoundBuffer(GetBufferResponse { buffer: found }))
            },
            BuffersCommand::Unknown => Ok(BuffersReply::Done),
        }
    }
}

/// Once a buffer is created under a free name, asking for that name finds
/// it, empty, and names stay unique.
pub proof fn law_get_buffer_after_create(buffers: Seq<(Seq<char>, Seq<char>)>, name: Seq<char>)
    requires
        names_unique(buffers),
        buffer_index(buffers, name) is None,
    ensures
        ({
            let after = buffers.push((name, Seq::<char>::empty()));
            &&& names_unique(after)
            &&& buffer_index(after, name) == Some(buffers.len() as int)
            &&& after[buffers.len() as int] == (name, Seq::<char>::empty())
        }),
{
    let after = buffers.push((name, Seq::<char>::empty()));
    assert forall|i: int, j: int|
        0 <= i < after.len() && 0 <= j < after.len() && i != j implies #[trigger] after[i].0
        != #[trigger] after[j].0 by {
        if i == buffers.len() && j < buffers.len() {
            assert(buffers[j].0 != name);
        } else if j == buffers.len() && i < buffers.len() {
            assert(buffers[i].0 != name);
        }
    }
    lemma_buffer_index_unique(after, name, buffers.len() as int);
}

/// Appending to a buffer and then asking for it finds its former content
/// followed by what was appended; the other buffers are unchanged.
pub proof fn law_get_buffer_after_append(
    buffers: Seq<(Seq<char>, Seq<char>)>,
    name: Seq<char>,
    appended: Seq<char>,
    i: int,
)
    requires
        names_unique(buffers),
        buffer_index(buffers, name) == Some(i),
    ensures
        ({
            let after = buffers.update(i, (buffers[i].0, buffers[i].1 + appended));
            &&& names_unique(after)
            &&& buffer_index(after, name) == Some(i)
            &&& after[i] == (name, buffers[i].1 + appended)
            &&& forall|j: int| 0 <= j < buffers.len() && j != i ==> after[j] == buffers[j]
        }),
{
    let after = buffers.update(i, (buffers[i].0, buffers[i].1 + appended));
    let k = choose|k: int| 0 <= k < buffers.len() && #[trigger] buffers[k].0 == name;
    assert(buffers[k].0 == name);
    assert forall|a: int, b: int|
        0 <= a < after.len() && 0 <= b < after.len() && a != b implies #[trigger] after[a].0
        != #[trigger] after[b].0 by {
        assert(after[a].0 == buffers[a].0);
        assert(after[b].0 == buffers[b].0);
    }
    lemma_buffer_index_unique(after, name, i);
}

/// With unique names, the buffer named `name` is the one found.
pub proof fn lemma_buffer_index_unique(
    buffers: Seq<(Seq<char>, Seq<char>)>,
    name: Seq<char>,
    i: int,
)
    requires
        names_unique(buffers),
        0 <= i < buffers.len(),
        buffers[i].0 == name,
    ensures
        buffer_index(buffers, name) == Some(i),
{
    let j = choose|j: int| 0 <= j < buffers.len() && #[trigger] buffers[j].0 == name;
    assert(buffers[j].0 == name);
}

} // verus!
