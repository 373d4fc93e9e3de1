use vstd::prelude::*;

use crate::buffer::LineBuffer;
use crate::buffer_provider::BufferType;

verus! {

/// How to make a buffer: its kind, and the file to load it from (empty for
/// none).
pub struct BufferStoreArgs {
    buffer_type: BufferType,
    file_name: String,
}

impl BufferStoreArgs {
    /// The name of the file to load the buffer from, empty for none.
    pub closed spec fn file_name_view(&self) -> Seq<char> {
        self.file_name@
    }

    /// The kind of buffer to make.
    pub closed spec fn buffer_type_view(&self) -> BufferType {
        self.buffer_type
    }

    /// Arguments for a buffer of this kind, loaded from `file_name`.
    pub fn new(buffer_type: BufferType, file_name: &str) -> (a: BufferStoreArgs)
        ensures
            a.buffer_type_view() == buffer_type,
            a.file_name_view() == file_name@,
    {
        BufferStoreArgs { buffer_type, file_name: String::from_str(file_name) }
    }

    /// The name of the file to load the buffer from, empty for none.
    pub fn file_name(&self) -> (f: &str)
        ensures
            f@ == self.file_name_view(),
    {
        self.file_name.as_str()
    }

    /// The kind of buffer to make.
    pub fn buffer_type(&self) -> (t: &BufferType)
        ensures
            *t == self.buffer_type_view(),
    {
        &self.buffer_type
    }
}

/// The buffers that the editor holds; the first one is the current one.
pub struct BufferStore {
    buffers: Vec<LineBuffer>,
}

impl BufferStore {
    /// The buffers, in the order they were added.
    pub closed spec fn buffers_view(&self) -> Seq<LineBuffer> {
        self.buffers@
    }

    /// An empty store.
    pub fn new() -> (s: BufferStore)
        ensures
            s.buffers_view() == Seq::<LineBuffer>::empty(),
    {
        BufferStore { buffers: Vec::new() }
    }

    /// Adds a buffer, and returns the current buffer: the first one.
    pub fn add_new(&mut self, buffer: LineBuffer) -> (r: Option<&LineBuffer>)
        ensures
            final(self).buffers_view() == old(self).buffers_view().push(buffer),
            r matches Some(b) && *b == final(self).buffers_view()[0],
    {
        self.buffers.push(buffer);
        Some(&self.buffers[0])
    }

    /// The current buffer: the first one.
    /// # Errors
    /// `"No"` when the store holds no buffer.
    pub fn get_current_mut(&mut self) -> (r: Result<&mut LineBuffer, &str>)
        ensures
            old(self).buffers_view().len() == 0 ==> (r matches Err(e) && e@ == "No"@
                && final(self).buffers_view() == old(self).buffers_view()),
            old(self).buffers_view().len() > 0 ==> (r matches Ok(b) && *b == old(
                self,
            ).buffers_view()[0] && final(self).buffers_view() == old(self).buffers_view().update(
                0,
                *final(b),
            )),
    {
        proof {
            reveal_strlit("No");
        }
        if self.buffers.len() == 0 {
            Err("No")
        } else {
            Ok(&mut self.buffers[0])
        }
    }
}

} // verus!
