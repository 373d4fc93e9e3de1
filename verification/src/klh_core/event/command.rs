use vstd::prelude::*;
use vstd::string::StringSliceAdditionalSpecFns;

use crate::klh_core::event::{EventMessage, EventType};
use crate::klh_core::messaging::message_type::{padded_id, MESSAGE_TYPE_ID_MAX_LENGTH};

verus! {

/// A command with its content.
pub struct Command {
    event_type: EventType,
    content: String,
}

impl Command {
    /// The type of the command.
    pub closed spec fn event_type_view(&self) -> EventType {
        self.event_type
    }

    /// The content of the command.
    pub closed spec fn content_view(&self) -> Seq<char> {
        self.content@
    }

    /// A command whose id is the text `id`, which must be at most
    /// `MESSAGE_TYPE_ID_MAX_LENGTH` bytes long.
    pub fn from_id(id: &str, content: String) -> (c: Self)
        requires
            id.spec_bytes().len() <= MESSAGE_TYPE_ID_MAX_LENGTH,
        ensures
            c.event_type_view() is Command,
            c.event_type_view().id_view() == padded_id(id.spec_bytes()),
            c.content_view() == content@,
    {
        Self { event_type: EventType::command_from_str(id), content }
    }

    /// The message that carries this command: its type and a copy of its
    /// content, with no responder.
    pub fn get_event_message<R>(&mut self) -> (r: Result<EventMessage<R>, String>)
        ensures
            final(self).event_type_view() == old(self).event_type_view(),
            final(self).content_view() == old(self).content_view(),
            r matches Ok(m) && m.event_type_view() == old(self).event_type_view()
                && m.responder_view() is None && m.content_view() == Some(old(self).content_view()),
    {
        Ok(EventMessage::new(self.event_type, None, Some(self.content.clone())))
    }
}

} // verus!
