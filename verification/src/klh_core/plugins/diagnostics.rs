use vstd::prelude::*;
use vstd::string::StringSliceAdditionalSpecFns;
use vstd::utf8::encode_utf8;

use crate::klh_core::messaging::message_type::padded_id;
use crate::klh_core::messaging::MessageType;

pub mod models;

verus! {

/// What the diagnostics plugin does with a message.
#[derive(Clone, Copy, Debug, PartialEq, Eq, Structural)]
pub enum DiagnosticsAction {
    /// Nothing (the message is not one it knows).
    Ignore,
    /// Log that a log event arrived.
    LogEvent,
    /// Stay busy for a while, to exercise the runtime.
    SlowBomb,
}

/// The id bytes `id` begin with the UTF-8 bytes of `prefix`.
pub open spec fn id_starts_with(id: Seq<u8>, prefix: &str) -> bool {
    prefix.spec_bytes().len() <= id.len() && id.take(prefix.spec_bytes().len() as int)
        == prefix.spec_bytes()
}

/// The diagnostics plugin, for sending test messages through a running
/// Klh.
pub struct Diagnostics {
    message_types: Vec<MessageType>,
}

impl Diagnostics {
    /// The message types the plugin registers for.
    pub closed spec fn message_types_view(&self) -> Seq<MessageType> {
        self.message_types@
    }

    /// A plugin registering the commands "diagnostics::log_event" and
    /// "diagnostics::slow_bomb".
    pub fn new() -> (d: Diagnostics)
        ensures
            d.message_types_view().len() == 2,
            d.message_types_view()[0] is Command,
            d.message_types_view()[0].id_view() == padded_id(
                "diagnostics::log_event".spec_bytes(),
            ),
            d.message_types_view()[1] is Command,
            d.message_types_view()[1].id_view() == padded_id(
                "diagnostics::slow_bomb".spec_bytes(),
            ),
    {
        proof {
            reveal_strlit("diagnostics::log_event");
            reveal_strlit("diagnostics::slow_bomb");
            reveal_with_fuel(encode_utf8, 30);
        }
        let mut message_types: Vec<MessageType> = Vec::new();
        message_types.push(MessageType::command_from_str("diagnostics::log_event").unwrap());
        message_types.push(MessageType::command_from_str("diagnostics::slow_bomb").unwrap());
        Diagnostics { message_types }
    }

    /// The message types the plugin registers for.
    pub fn list_message_types(&self) -> (r: Vec<MessageType>)
        ensures
            r@ == self.message_types_view(),
    {
        let r = self.message_types.clone();
        assert(r@ =~= self.message_types@);
        r
    }

    /// What to do with a message of this type: a command whose id begins
    /// with "diagnostics::log_event" is logged, one whose id begins with
    /// "diagnostics::slow_bomb" is a slow bomb; anything else is ignored.
    pub fn action_for(message_type: &MessageType) -> (a: DiagnosticsAction)
        ensures
            a == (match *message_type {
                MessageType::Command(id) => if id_starts_with(id@, "diagnostics::log_event") {
                    DiagnosticsAction::LogEvent
                } else if id_starts_with(id@, "diagnostics::slow_bomb") {
                    DiagnosticsAction::SlowBomb
                } else {
                    DiagnosticsAction::Ignore
                },
                _ => DiagnosticsAction::Ignore,
            }),
    {
        match message_type {
            MessageType::Command(id) => {
                if starts_with(id, "diagnostics::log_event") {
                    DiagnosticsAction::LogEvent
                } else if starts_with(id, "diagnostics::slow_bomb") {
                    DiagnosticsAction::SlowBomb
                } else {
                    DiagnosticsAction::Ignore
                }
            },
            _ => DiagnosticsAction::Ignore,
        }
    }
}

/// Whether the id bytes begin with the UTF-8 bytes of `prefix`.
pub fn starts_with(id: &[u8; 100], prefix: &str) -> (r: bool)
    ensures
        r == id_starts_with(id@, prefix),
{
    let bytes = prefix.as_bytes();
    if bytes.len() > 100 {
        return false;
    }
    let mut i: usize = 0;
    while i < bytes.len()
        invariant
            bytes@ == prefix.spec_bytes(),
            bytes@.len() <= 100,
            id@.len() == 100,
            i <= bytes@.len(),
            forall|j: int| 0 <= j < i ==> id@[j] == bytes@[j],
        decreases bytes@.len() - i,
    {
        if id[i] != bytes[i] {
            return false;
        }
        i = i + 1;
    }
    assert(id@.take(bytes@.len() as int) =~= bytes@);
    true
}

} // verus!
