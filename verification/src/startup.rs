use vstd::prelude::*;

verus! {

/// What the editor is started with: the name of a file to open, or none.
#[derive(Debug)]
pub struct StartupArgs {
    file_name: String,
}

impl StartupArgs {
    /// The file name given, empty when none was.
    pub closed spec fn file_name_view(&self) -> Seq<char> {
        self.file_name@
    }

    /// Arguments naming no file.
    pub fn new() -> (a: StartupArgs)
        ensures
            a.file_name_view() == Seq::<char>::empty(),
    {
        StartupArgs { file_name: String::new() }
    }

    /// Arguments from the first command-line argument after the program
    /// name, taken as the name of the file to open; none names no file.
    pub fn from_arg(arg: Option<String>) -> (a: StartupArgs)
        ensures
            a.file_name_view() == (match arg {
                Some(f) => f@,
                None => Seq::<char>::empty(),
            }),
    {
        match arg {
            None => StartupArgs::new(),
            Some(f) => StartupArgs { file_name: f },
        }
    }

    /// The name of the file to open, or `None` when the name is empty.
    pub fn get_file_name(&self) -> (r: Option<&str>)
        ensures
            self.file_name_view().len() == 0 ==> r is None,
            self.file_name_view().len() > 0 ==> (r matches Some(f) && f@ == self.file_name_view()),
    {
        if self.file_name.as_str().is_empty() {
            None
        } else {
            Some(self.file_name.as_str())
        }
    }
}

} // verus!
