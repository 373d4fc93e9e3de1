use vstd::prelude::*;

verus! {

/// Asks the display plugin for the named window.
pub struct GetWindowRequest {
    pub window_name: String,
}

/// The window asked for, if there is one by that name.
pub struct GetWindowResponse {
    pub window: Option<Window>,
}

/// The names of all windows, in the order they were created.
pub struct ListWindowsResponse {
    pub window_names: Vec<String>,
}

/// Asks the display plugin to create a window with this name.
pub struct CreateWindowRequest {
    pub window_name: String,
}

/// Asks the display plugin to show the named buffer in the named window.
pub struct AttachBufferRequest {
    pub window_name: String,
    pub buffer_name: String,
}

/// Text typed into the named window.
pub struct AcceptStringInputRequest {
    pub window_name: String,
    pub input: String,
}

/// The view of a list of strings: their characters.
pub open spec fn strings_view(v: Seq<String>) -> Seq<Seq<char>> {
    v.map_values(|s: String| s@)
}

/// The view of an optional string: its characters, if any.
pub open spec fn option_string_view(o: Option<String>) -> Option<Seq<char>> {
    match o {
        Some(s) => Some(s@),
        None => None,
    }
}

/// A window: its name, the buffer it shows, and the buffers attached to it.
#[derive(Debug, Clone)]
pub struct Window {
    pub name: String,
    pub active_buffer_name: Option<String>,
    pub associated_buffers_names: Vec<String>,
}

impl View for Window {
    type V = (Seq<char>, Option<Seq<char>>, Seq<Seq<char>>);

    open spec fn view(&self) -> (Seq<char>, Option<Seq<char>>, Seq<Seq<char>>) {
        (
            self.name@,
            option_string_view(self.active_buffer_name),
            strings_view(self.associated_buffers_names@),
        )
    }
}

/// Copies of the strings in `v`.
pub fn copy_strings(v: &Vec<String>) -> (r: Vec<String>)
    ensures
        strings_view(r@) == strings_view(v@),
{
    let mut r: Vec<String> = Vec::new();
    let mut i: usize = 0;
    while i < v.len()
        invariant
            i <= v@.len(),
            strings_view(r@) == strings_view(v@).take(i as int),
        decreases v@.len() - i,
    {
        let ghost prev = r@;
        let s = v[i].clone();
        r.push(s);
        assert(strings_view(r@) =~= strings_view(prev).push(s@));
        assert(strings_view(v@).take(i + 1) =~= strings_view(v@).take(i as int).push(v@[i as int]@));
        i = i + 1;
    }
    assert(strings_view(v@).take(i as int) =~= strings_view(v@));
    r
}

impl Window {
    /// A window with the given name, showing no buffer.
    pub fn new(name: String) -> (w: Window)
        ensures
            w@ == (name@, None::<Seq<char>>, Seq::<Seq<char>>::empty()),
    {
        let w = Window { name, active_buffer_name: None, associated_buffers_names: Vec::new() };
        assert(strings_view(w.associated_buffers_names@) =~= Seq::<Seq<char>>::empty());
        w
    }

    /// A window with the same name and buffers.
    pub fn duplicate(&self) -> (w: Window)
        ensures
            w@ == self@,
    {
        let active = match &self.active_buffer_name {
            Some(s) => Some(s.clone()),
            None => None,
        };
        Window {
            name: self.name.clone(),
            active_buffer_name: active,
            associated_buffers_names: copy_strings(&self.associated_buffers_names),
        }
    }
}

} // verus!
