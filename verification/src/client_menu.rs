use vstd::prelude::*;

use crate::text_util::str_equals;

verus! {

/// Whether `c` is white space in the sense of Unicode's White_Space
/// property, which std's `char::is_whitespace` follows.
pub open spec fn is_white_space(c: char) -> bool {
    ||| '\u{9}' <= c <= '\u{d}'
    ||| c == ' '
    ||| c == '\u{85}'
    ||| c == '\u{a0}'
    ||| c == '\u{1680}'
    ||| '\u{2000}' <= c <= '\u{200a}'
    ||| c == '\u{2028}'
    ||| c == '\u{2029}'
    ||| c == '\u{202f}'
    ||| c == '\u{205f}'
    ||| c == '\u{3000}'
}

/// `s` without its leading white space.
pub open spec fn trim_start(s: Seq<char>) -> Seq<char>
    decreases s.len(),
{
    if s.len() > 0 && is_white_space(s[0]) {
        trim_start(s.drop_first())
    } else {
        s
    }
}

/// `s` without its trailing white space.
pub open spec fn trim_end(s: Seq<char>) -> Seq<char>
    decreases s.len(),
{
    if s.len() > 0 && is_white_space(s.last()) {
        trim_end(s.drop_last())
    } else {
        s
    }
}

/// `s` without its leading and trailing white space.
pub open spec fn trimmed(s: Seq<char>) -> Seq<char> {
    trim_end(trim_start(s))
}

/// The text without leading and trailing white space (std's `str::trim`).
/// Trusted: the contract claims what std documents: the leading and
/// trailing characters with Unicode's White_Space property are removed.
#[verifier::external_body]
fn trim(s: &str) -> (r: &str)
    ensures
        r@ == trimmed(s@),
{
    s.trim()
}

/// The actions of the interactive test client's menu.
#[derive(Clone, Copy, Debug, PartialEq, Eq, Structural)]
pub enum ClientAction {
    /// Send a query that no plugin knows.
    BadQuery,
    /// Send a command that no plugin knows.
    BadCommand,
    /// Send a log event to diagnostics.
    LogEvent,
    /// Send a slow bomb to diagnostics.
    SlowBomb,
    /// Create a buffer.
    CreateBuffer,
    /// List the buffers.
    ListBuffers,
    /// Create a window.
    CreateWindow,
    /// List the windows.
    ListWindows,
    /// Leave the client.
    Exit,
    /// Anything else: the user is told to read the instructions.
    Unrecognized,
}

/// The action that a menu entry names: "bad_query", "bad_command", "dl",
/// "db", "bc", "bl", "wc", "wl" or "e".
pub open spec fn action_named(entry: Seq<char>) -> ClientAction {
    if entry == "bad_query"@ {
        ClientAction::BadQuery
    } else if entry == "bad_command"@ {
        ClientAction::BadCommand
    } else if entry == "dl"@ {
        ClientAction::LogEvent
    } else if entry == "db"@ {
        ClientAction::SlowBomb
    } else if entry == "bc"@ {
        ClientAction::CreateBuffer
    } else if entry == "bl"@ {
        ClientAction::ListBuffers
    } else if entry == "wc"@ {
        ClientAction::CreateWindow
    } else if entry == "wl"@ {
        ClientAction::ListWindows
    } else if entry == "e"@ {
        ClientAction::Exit
    } else {
        ClientAction::Unrecognized
    }
}

/// The action that a menu entry names (see `action_named`).
pub fn action_for_entry(entry: &str) -> (a: ClientAction)
    ensures
        a == action_named(entry@),
{
    if str_equals(entry, "bad_query") {
        ClientAction::BadQuery
    } else if str_equals(entry, "bad_command") {
        ClientAction::BadCommand
    } else if str_equals(entry, "dl") {
        ClientAction::LogEvent
    } else if str_equals(entry, "db") {
        ClientAction::SlowBomb
    } else if str_equals(entry, "bc") {
        ClientAction::CreateBuffer
    } else if str_equals(entry, "bl") {
        ClientAction::ListBuffers
    } else if str_equals(entry, "wc") {
        ClientAction::CreateWindow
    } else if str_equals(entry, "wl") {
        ClientAction::ListWindows
    } else if str_equals(entry, "e") {
        ClientAction::Exit
    } else {
        ClientAction::Unrecognized
    }
}

/// The action that a line typed at the menu names: the entry is the line
/// without leading and trailing white space.
pub fn action_for_line(line: &str) -> (a: ClientAction)
    ensures
        a == action_named(trimmed(line@)),
{
    action_for_entry(trim(line))
}

} // verus!
