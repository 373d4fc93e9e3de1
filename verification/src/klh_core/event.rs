use vstd::prelude::*;
use vstd::string::StringSliceAdditionalSpecFns;
use vstd::utf8::{decode_utf8, valid_utf8};

use crate::klh_core::messaging::message_type::{
    id_from_str, lemma_padded_id_decodes, padded_id, MESSAGE_TYPE_ID_MAX_LENGTH,
};
use crate::text_util::{str_from_utf8, string_without_nuls, without_nuls};

pub mod command;

verus! {

/// The type of an event: a command or a query, with an id held as a fixed
/// number of bytes (the UTF-8 bytes of the id's text, then zero bytes).
#[derive(Clone, Copy, Debug, Eq, PartialEq, Hash)]
pub enum EventType {
    Command([u8; 100]),
    Query([u8; 100]),
}

impl EventType {
    /// The id bytes of the event type.
    pub open spec fn id_view(self) -> Seq<u8> {
        match self {
            EventType::Command(b) => b@,
            EventType::Query(b) => b@,
        }
    }

    /// The id as readable text: the id bytes decoded as UTF-8, without the
    /// NUL characters that the zero bytes decode to.
    pub fn display_id(&self) -> (s: String)
        requires
            valid_utf8(self.id_view()),
        ensures
            s@ == without_nuls(decode_utf8(self.id_view())),
    {
        let bytes = match self {
            EventType::Command(b) => b,
            EventType::Query(b) => b,
        };
        let text = match str_from_utf8(bytes.as_slice()) {
            Ok(t) => t,
            Err(_) => {
                proof {
                    assert(false);
                }
                ""
            },
        };
        string_without_nuls(text)
    }

    /// A query whose id is the text `str_id`, which must be at most
    /// `MESSAGE_TYPE_ID_MAX_LENGTH` bytes long.
    pub fn query_from_str(str_id: &str) -> (e: Self)
        requires
            str_id.spec_bytes().len() <= MESSAGE_TYPE_ID_MAX_LENGTH,
        ensures
            e is Query,
            e.id_view() == padded_id(str_id.spec_bytes()),
    {
        EventType::Query(id_from_str(str_id).unwrap())
    }

    /// A command whose id is the text `str_id`, which must be at most
    /// `MESSAGE_TYPE_ID_MAX_LENGTH` bytes long.
    pub fn command_from_str(str_id: &str) -> (e: Self)
        requires
            str_id.spec_bytes().len() <= MESSAGE_TYPE_ID_MAX_LENGTH,
        ensures
            e is Command,
            e.id_view() == padded_id(str_id.spec_bytes()),
    {
        EventType::Command(id_from_str(str_id).unwrap())
    }
}

/// The readable id of an event type made from a text is that text, less
/// any NUL characters in it.
pub proof fn law_event_display_id_reads_back_str_id(str_id: &str, e: EventType)
    requires
        str_id.spec_bytes().len() <= MESSAGE_TYPE_ID_MAX_LENGTH,
        e.id_view() == padded_id(str_id.spec_bytes()),
    ensures
        valid_utf8(e.id_view()),
        without_nuls(decode_utf8(e.id_view())) == without_nuls(str_id@),
{
    lemma_padded_id_decodes(str_id@);
}

/// The content of a response to a query.
#[derive(Debug)]
pub struct QueryResponse {
    pub content: String,
}

/// A command with its content.
pub struct BetterCommand {
    event_type: EventType,
    content: String,
}

impl BetterCommand {
    /// The type of the command.
    pub closed spec fn event_type_view(&self) -> EventType {
        self.event_type
    }

    /// The content of the command.
    pub closed spec fn content_view(&self) -> Seq<char> {
        self.content@
    }

    /// A command whose id is the text `id`, which must be at most
    /// `MESSAGE_TYPE_ID_MAX_LENGTH` bytes long.
    pub fn from_id(id: &str, content: String) -> (c: Self)
        requires
            id.spec_bytes().len() <= MESSAGE_TYPE_ID_MAX_LENGTH,
        ensures
            c.event_type_view() is Command,
            c.event_type_view().id_view() == padded_id(id.spec_bytes()),
            c.content_view() == content@,
    {
        Self { event_type: EventType::command_from_str(id), content }
    }

    /// The message that carries this command: its type and a copy of its
    /// content, with no responder.
    pub fn get_event_message<R>(&mut self) -> (r: Result<EventMessage<R>, String>)
        ensures
            final(self).event_type_view() == old(self).event_type_view(),
            final(self).content_view() == old(self).content_view(),
            r matches Ok(m) && m.event_type_view() == old(self).event_type_view()
                && m.responder_view() is None && m.content_view() == Some(old(self).content_view()),
    {
        Ok(EventMessage::new(self.event_type, None, Some(self.content.clone())))
    }
}

/// An event as a plugin receives it: its type, the responder through which
/// to answer it, if any, and its content, if any. The responder and the
/// content can each be taken once.
pub struct EventMessage<R> {
    event_type: EventType,
    responder: Option<R>,
    content: Option<String>,
}

impl<R> EventMessage<R> {
    /// The type of the event.
    pub closed spec fn event_type_view(&self) -> EventType {
        self.event_type
    }

    /// The responder, while it has not been taken.
    pub closed spec fn responder_view(&self) -> Option<R> {
        self.responder
    }

    /// The content, while it has not been taken.
    pub closed spec fn content_view(&self) -> Option<Seq<char>> {
        match self.content {
            Some(c) => Some(c@),
            None => None,
        }
    }

    /// A message of this type, with this responder and content.
    pub fn new(event_type: EventType, responder: Option<R>, content: Option<String>) -> (m: Self)
        ensures
            m.event_type_view() == event_type,
            m.responder_view() == responder,
            m.content_view() == (match content {
                Some(c) => Some(c@),
                None => None::<Seq<char>>,
            }),
    {
        Self { event_type, responder, content }
    }

    /// The type of the event.
    pub fn get_event_type(&self) -> (t: EventType)
        ensures
            t == self.event_type_view(),
    {
        self.event_type
    }

    /// Takes the responder: the first call gets it, later ones `None`.
    pub fn get_responder(&mut self) -> (r: Option<R>)
        ensures
            r == old(self).responder_view(),
            final(self).responder_view() is None,
            final(self).event_type_view() == old(self).event_type_view(),
            final(self).content_view() == old(self).content_view(),
    {
        self.responder.take()
    }

    /// Takes the content: the first call gets it, later ones `None`.
    pub fn get_content(&mut self) -> (r: Option<String>)
        ensures
            match r {
                Some(c) => old(self).content_view() == Some(c@),
                None => old(self).content_view() is None,
            },
            final(self).content_view() is None,
            final(self).event_type_view() == old(self).event_type_view(),
            final(self).responder_view() == old(self).responder_view(),
    {
        self.content.take()
    }
}

} // verus!
