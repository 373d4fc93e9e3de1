use vstd::prelude::*;
use vstd::std_specs::cmp::PartialEqSpecImpl;

use crate::text_util::str_equals;

verus! {

/// The errors that messaging and plugins report.
#[derive(Debug, Eq)]
pub enum MessageError {
    /// The response handler has already handled its response; it can only
    /// do so once.
    ResponseAlreadyHandled,
    /// No plugin is registered for the message's type.
    MessageTypeNotFound,
    /// The response handler waited for a response that never came.
    FailedToReceiveResponse,
    /// The request has already given away its response handler.
    ResponseHandlerAlreadyTaken,
    /// The responder has already responded; it can only do so once.
    ResponderAlreadyUsed,
    /// The plugin that was sent the message could not process it.
    PluginFailedToProcessMessage,
    /// The responder could not send its response.
    FailedToSendResponse,
    /// The request cannot be carried out, for the reason given.
    BadRequest(String),
}

impl PartialEq for MessageError {
    fn eq(&self, other: &Self) -> (r: bool) {
        match (self, other) {
            (MessageError::ResponseAlreadyHandled, MessageError::ResponseAlreadyHandled) => true,
            (MessageError::MessageTypeNotFound, MessageError::MessageTypeNotFound) => true,
            (MessageError::FailedToReceiveResponse, MessageError::FailedToReceiveResponse) => true,
            (
                MessageError::ResponseHandlerAlreadyTaken,
                MessageError::ResponseHandlerAlreadyTaken,
            ) => true,
            (MessageError::ResponderAlreadyUsed, MessageError::ResponderAlreadyUsed) => true,
            (
                MessageError::PluginFailedToProcessMessage,
                MessageError::PluginFailedToProcessMessage,
            ) => true,
            (MessageError::FailedToSendResponse, MessageError::FailedToSendResponse) => true,
            (MessageError::BadRequest(a), MessageError::BadRequest(b)) => str_equals(a.as_str(), b.as_str()),
            _ => false,
        }
    }
}

impl PartialEqSpecImpl for MessageError {
    open spec fn obeys_eq_spec() -> bool {
        true
    }

    open spec fn eq_spec(&self, other: &Self) -> bool {
        match (*self, *other) {
            (MessageError::BadRequest(a), MessageError::BadRequest(b)) => a@ == b@,
            (MessageError::ResponseAlreadyHandled, MessageError::ResponseAlreadyHandled) => true,
            (MessageError::MessageTypeNotFound, MessageError::MessageTypeNotFound) => true,
            (MessageError::FailedToReceiveResponse, MessageError::FailedToReceiveResponse) => true,
            (
                MessageError::ResponseHandlerAlreadyTaken,
                MessageError::ResponseHandlerAlreadyTaken,
            ) => true,
            (MessageError::ResponderAlreadyUsed, MessageError::ResponderAlreadyUsed) => true,
            (
                MessageError::PluginFailedToProcessMessage,
                MessageError::PluginFailedToProcessMessage,
            ) => true,
            (MessageError::FailedToSendResponse, MessageError::FailedToSendResponse) => true,
            _ => false,
        }
    }
}

} // verus!
