use vstd::prelude::*;

use crate::klh_core::messaging::MessageError;

verus! {

/// A value that can be handed out once: the response handler of a request,
/// the responder of a message, the channel end of either.
#[derive(Debug)]
pub struct OneTime<T> {
    item: Option<T>,
}

impl<T> OneTime<T> {
    /// The value, while it has not been handed out.
    pub closed spec fn item_view(&self) -> Option<T> {
        self.item
    }

    /// Holds `item`, if any.
    pub fn new(item: Option<T>) -> (s: Self)
        ensures
            s.item_view() == item,
    {
        OneTime { item }
    }

    /// Whether the value is still there.
    pub fn is_available(&self) -> (b: bool)
        ensures
            b == self.item_view() is Some,
    {
        self.item.is_some()
    }

    /// Hands out the value, if it is still there; afterwards it is gone.
    pub fn take(&mut self) -> (r: Option<T>)
        ensures
            r == old(self).item_view(),
            final(self).item_view() is None,
    {
        self.item.take()
    }

    /// Hands out the value, or fails with `error` when it was already
    /// handed out.
    pub fn take_or(&mut self, error: MessageError) -> (r: Result<T, MessageError>)
        ensures
            final(self).item_view() is None,
            old(self).item_view() matches Some(v) ==> r == Ok::<T, MessageError>(v),
            old(self).item_view() is None ==> r == Err::<T, MessageError>(error),
    {
        match self.item.take() {
            Some(v) => Ok(v),
            None => Err(error),
        }
    }
}

} // verus!
