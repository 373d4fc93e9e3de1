use vstd::prelude::*;

verus! {

/// Asks the buffers plugin to create a buffer with this name.
pub struct CreateBufferRequest {
    pub name: String,
}

/// Asks the buffers plugin to append a string to the end of the named
/// buffer. No cursor or point is considered here.
pub struct AppendStringToBufferRequest {
    pub buffer_name: String,
    pub content: String,
}

/// Asks the buffers plugin for the named buffer.
pub struct GetBufferRequest {
    pub buffer_name: String,
}

/// The buffer asked for, if there is one by that name.
pub struct GetBufferResponse {
    pub buffer: Option<Buffer>,
}

/// The names of all buffers, in the order they were created.
pub struct ListBuffersResponse {
    pub buffer_names: Vec<String>,
}

/// A named buffer and its content.
#[derive(Clone)]
pub struct Buffer {
    pub name: String,
    pub content: BufferContent,
}

impl View for Buffer {
    type V = (Seq<char>, Seq<char>);

    open spec fn view(&self) -> (Seq<char>, Seq<char>) {
        (self.name@, self.content@)
    }
}

impl Buffer {
    /// An empty buffer with the given name.
    pub fn new(name: String) -> (b: Buffer)
        ensures
            b@ == (name@, Seq::<char>::empty()),
    {
        Buffer { name, content: BufferContent::new() }
    }

    /// A buffer with the same name and content.
    pub fn duplicate(&self) -> (b: Buffer)
        ensures
            b@ == self@,
    {
        Buffer { name: self.name.clone(), content: self.content.duplicate() }
    }
}

/// The content of a buffer: for now, a string.
#[derive(Clone)]
pub struct BufferContent {
    content: String,
}

impl View for BufferContent {
    type V = Seq<char>;

    /// The text held.
    closed spec fn view(&self) -> Seq<char> {
        self.content@
    }
}

impl Default for BufferContent {
    fn default() -> (c: Self)
        ensures
            c@ == Seq::<char>::empty(),
    {
        Self::new()
    }
}

impl BufferContent {
    /// Empty content.
    pub fn new() -> (c: BufferContent)
        ensures
            c@ == Seq::<char>::empty(),
    {
        BufferContent { content: String::new() }
    }

    /// Appends `content` to the end.
    pub fn append(&mut self, content: String)
        ensures
            final(self)@ == old(self)@ + content@,
    {
        self.content.append(content.as_str());
    }

    /// The content as a string slice.
    pub fn as_str(&self) -> (s: &str)
        ensures
            s@ == self@,
    {
        self.content.as_str()
    }

    /// Content with the same characters.
    pub fn duplicate(&self) -> (c: BufferContent)
        ensures
            c@ == self@,
    {
        BufferContent { content: self.content.clone() }
    }
}

} // verus!
