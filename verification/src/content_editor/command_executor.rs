use vstd::prelude::*;
use vstd::utf8::{
    char_is_scalar, encode_scalar, encode_utf8, encode_utf8_decode_utf8, is_char_boundary,
    length_of_first_scalar,
};

use crate::content_editor::models::{Command, ContentBuffer};
use crate::klh_core::messaging::message_type::lemma_encode_concat;
use crate::text_util::{push_char, string_insert, string_remove};

verus! {

/// The UTF-8 bytes of a text.
pub open spec fn content_bytes(s: Seq<char>) -> Seq<u8> {
    encode_utf8(s)
}

/// The byte index that a deletion removes at: the point, or the last byte
/// when the point is past it.
pub open spec fn delete_index(point: int, len: int) -> int {
    if point < len - 1 {
        point
    } else {
        len - 1
    }
}

/// What `command` needs of the buffer it runs on.
pub open spec fn command_allowed(command: Command, content: Seq<char>, point: i64) -> bool {
    let bytes = content_bytes(content);
    &&& bytes.len() <= i64::MAX
    &&& match command {
        Command::BufferInsert(ch) => {
            &&& 0 <= point <= bytes.len()
            &&& is_char_boundary(bytes, point as int)
            &&& bytes.len() + encode_utf8(seq![ch]).len() <= i64::MAX
        },
        Command::BufferDelete => {
            &&& bytes.len() > 0
            &&& 0 <= point <= usize::MAX
            &&& is_char_boundary(bytes, delete_index(point as int, bytes.len() as int))
        },
        Command::AdvancePoint => point < i64::MAX,
        Command::RetreatPoint => point > i64::MIN,
        _ => true,
    }
}

/// The number of bytes in the UTF-8 encoding of `ch`.
fn utf8_width(ch: char) -> (w: u64)
    ensures
        w == encode_utf8(seq![ch]).len(),
        w <= 4,
{
    proof {
        char_is_scalar(ch);
        assert(seq![ch].drop_first() =~= Seq::<char>::empty());
        assert(encode_utf8(seq![ch]) == encode_scalar(ch as u32) + encode_utf8(Seq::<char>::empty()));
    }
    let v: u32 = ch as u32;
    if v <= 0x7f {
        1
    } else if v <= 0x7ff {
        2
    } else if v <= 0xffff {
        3
    } else {
        4
    }
}

/// Whether `command` can run on the buffer (see `command_allowed`): the
/// point must lie on a character boundary where a character goes in or
/// comes out, and neither the text's length nor the point may overflow.
pub fn can_execute(command: &Command, buffer: &ContentBuffer) -> (b: bool)
    ensures
        b == command_allowed(*command, buffer.content@, buffer.point),
{
    let text = buffer.content.as_str();
    let bytes = text.as_bytes();
    let len = bytes.len();
    assert(bytes@ == encode_utf8(buffer.content@));
    if len as u64 > 0x7fff_ffff_ffff_ffffu64 {
        return false;
    }
    match command {
        Command::BufferInsert(ch) => {
            if buffer.point < 0 || buffer.point as u64 > len as u64 {
                return false;
            }
            if !text.is_char_boundary(buffer.point as usize) {
                return false;
            }
            len as u64 + utf8_width(*ch) <= 0x7fff_ffff_ffff_ffffu64
        },
        Command::BufferDelete => {
            if len == 0 || buffer.point < 0 {
                return false;
            }
            if buffer.point as u64 > usize::MAX as u64 {
                return false;
            }
            let p = buffer.point as usize;
            let idx = if p < len - 1 {
                p
            } else {
                len - 1
            };
            text.is_char_boundary(idx)
        },
        Command::AdvancePoint => buffer.point < i64::MAX,
        Command::RetreatPoint => buffer.point > i64::MIN,
        _ => true,
    }
}

/// What running `command` on a buffer holding `content` with its point at
/// `point` leaves: the new content and point, over the UTF-8 bytes.
/// - `BufferInsert(ch)` puts the bytes of `ch` in at the point and moves
///   the point one byte on.
/// - `BufferDelete` removes the character at the point (at the last byte
///   when the point is past it) and moves the point one byte back, not
///   below zero.
/// - `AdvancePoint` moves the point one byte on, not past the end;
///   `RetreatPoint` one byte back, not below zero.
/// - Anything else changes nothing.
pub open spec fn execute_effect(
    command: Command,
    content: Seq<char>,
    point: i64,
    new_content: Seq<char>,
    new_point: i64,
) -> bool {
    let bytes = content_bytes(content);
    let p = point as int;
    let new_bytes = content_bytes(new_content);
    match command {
        Command::BufferInsert(ch) => {
            &&& new_bytes == bytes.take(p) + encode_utf8(seq![ch]) + bytes.skip(p)
            &&& new_point == p + 1
        },
        Command::BufferDelete => {
            let idx = delete_index(p, bytes.len() as int);
            &&& new_bytes == bytes.take(idx) + bytes.skip(
                idx + length_of_first_scalar(bytes.skip(idx)),
            )
            &&& new_point == (if p - 1 > 0 {
                p - 1
            } else {
                0
            })
        },
        Command::AdvancePoint => {
            &&& new_content == content
            &&& new_point == (if p + 1 < bytes.len() {
                p + 1
            } else {
                bytes.len() as int
            })
        },
        Command::RetreatPoint => {
            &&& new_content == content
            &&& new_point == (if p - 1 > 0 {
                p - 1
            } else {
                0
            })
        },
        _ => {
            &&& new_content == content
            &&& new_point == point
        },
    }
}

/// Executes `command` on the buffer. Returns `Some(0)` for `Quit`, which
/// asks the editor to stop, and `None` otherwise.
/// - `BufferInsert(ch)` inserts `ch` at the point and moves the point one
///   byte on.
/// - `BufferDelete` removes the character at the point (at the last byte
///   when the point is past it) and moves the point one byte back, not
///   below zero.
/// - `AdvancePoint` moves the point one byte on, not past the end;
///   `RetreatPoint` one byte back, not below zero.
pub fn execute_command(command: &Command, buffer: &mut ContentBuffer) -> (r: Option<u16>)
    requires
        command_allowed(*command, old(buffer).content@, old(buffer).point),
    ensures
        r == (if *command == Command::Quit {
            Some(0u16)
        } else {
            None
        }),
        execute_effect(
            *command,
            old(buffer).content@,
            old(buffer).point,
            final(buffer).content@,
            final(buffer).point,
        ),
{
    match command {
        Command::BufferInsert(ch) => {
            let len = buffer.content.as_str().as_bytes().len();
            if buffer.point == len as i64 {
                let ghost before = buffer.content@;
                push_char(&mut buffer.content, *ch);
                proof {
                    lemma_encode_push(before, *ch);
                    assert(encode_utf8(before).take(len as int) =~= encode_utf8(before));
                    assert(encode_utf8(before).skip(len as int) =~= Seq::<u8>::empty());
                }
            } else {
                string_insert(&mut buffer.content, buffer.point as usize, *ch);
            }
            let new_len = buffer.content.as_str().as_bytes().len();
            buffer.point = if buffer.point + 1 < new_len as i64 {
                buffer.point + 1
            } else {
                new_len as i64
            };
        },
        Command::Quit => {
            return Some(0);
        },
        Command::BufferDelete => {
            let len = buffer.content.as_str().as_bytes().len();
            let p = buffer.point as usize;
            let idx = if p < len - 1 {
                p
            } else {
                len - 1
            };
            let _ = string_remove(&mut buffer.content, idx);
            buffer.point = if buffer.point - 1 > 0 {
                buffer.point - 1
            } else {
                0
            };
        },
        Command::AdvancePoint => {
            let len = buffer.content.as_str().as_bytes().len();
            buffer.point = if buffer.point + 1 < len as i64 {
                buffer.point + 1
            } else {
                len as i64
            };
        },
        Command::RetreatPoint => {
            buffer.point = if buffer.point - 1 > 0 {
                buffer.point - 1
            } else {
                0
            };
        },
        _ => (),
    }
    None
}

/// The UTF-8 bytes of a text with a character pushed on are its bytes
/// followed by the character's bytes.
pub proof fn lemma_encode_push(s: Seq<char>, c: char)
    ensures
        encode_utf8(s.push(c)) == encode_utf8(s) + encode_utf8(seq![c]),
    decreases s.len(),
{
    if s.len() == 0 {
        assert(s.push(c) =~= seq![c]);
    } else {
        assert(s.push(c).drop_first() =~= s.drop_first().push(c));
        lemma_encode_push(s.drop_first(), c);
        assert(encode_utf8(s.push(c)) =~= encode_utf8(s) + encode_utf8(seq![c]));
    }
}

/// Every character of `s` is ASCII.
pub open spec fn ascii_text(s: Seq<char>) -> bool {
    forall|i: int| 0 <= i < s.len() ==> (#[trigger] s[i] as u32) <= 0x7f
}

/// An ASCII character encodes to one byte, itself below 0x80.
proof fn lemma_encode_ascii_char(c: char)
    requires
        (c as u32) <= 0x7f,
    ensures
        encode_scalar(c as u32).len() == 1,
        encode_scalar(c as u32)[0] <= 0x7f,
{
    let x: u32 = c as u32;
    assert((x & 0x7f) <= 0x7f) by (bit_vector);
}

/// An ASCII text encodes to as many bytes as it has characters.
proof fn lemma_encode_ascii_len(s: Seq<char>)
    requires
        ascii_text(s),
    ensures
        encode_utf8(s).len() == s.len(),
    decreases s.len(),
{
    if s.len() > 0 {
        lemma_encode_ascii_char(s[0]);
        assert(ascii_text(s.drop_first())) by {
            assert forall|i: int| 0 <= i < s.drop_first().len() implies (
            #[trigger] s.drop_first()[i] as u32) <= 0x7f by {
                assert(s.drop_first()[i] == s[i + 1]);
            }
        }
        lemma_encode_ascii_len(s.drop_first());
    }
}

/// The bytes of an ASCII text split at `k` are the bytes of its two parts.
proof fn lemma_encode_ascii_split(s: Seq<char>, k: int)
    requires
        ascii_text(s),
        0 <= k <= s.len(),
    ensures
        encode_utf8(s).take(k) == encode_utf8(s.take(k)),
        encode_utf8(s).skip(k) == encode_utf8(s.skip(k)),
{
    assert(s =~= s.take(k) + s.skip(k));
    lemma_encode_concat(s.take(k), s.skip(k));
    assert(ascii_text(s.take(k))) by {
        assert forall|i: int| 0 <= i < s.take(k).len() implies (#[trigger] s.take(k)[i] as u32)
            <= 0x7f by {
            assert(s.take(k)[i] == s[i]);
        }
    }
    lemma_encode_ascii_len(s.take(k));
    let b = encode_utf8(s);
    assert(b.take(k) =~= encode_utf8(s.take(k)));
    assert(b.skip(k) =~= encode_utf8(s.skip(k)));
}

/// On ASCII text, where every character is one byte, the commands act on
/// characters: inserting puts the character in at the point, deleting
/// removes the character at the point (the last one when the point is at
/// or past it), and advancing stops at the end of the text.
pub proof fn law_execute_on_ascii_text(
    command: Command,
    content: Seq<char>,
    point: i64,
    new_content: Seq<char>,
    new_point: i64,
)
    requires
        ascii_text(content),
        command matches Command::BufferInsert(ch) ==> (ch as u32) <= 0x7f,
        command_allowed(command, content, point),
        execute_effect(command, content, point, new_content, new_point),
    ensures
        match command {
            Command::BufferInsert(ch) => {
                &&& new_content == content.take(point as int) + seq![ch] + content.skip(
                    point as int,
                )
                &&& new_point == point + 1
            },
            Command::BufferDelete => {
                &&& new_content == content.remove(delete_index(point as int, content.len() as int))
                &&& new_point == (if point - 1 > 0 {
                    point - 1
                } else {
                    0
                })
            },
            Command::AdvancePoint => {
                &&& new_content == content
                &&& new_point == (if point + 1 < content.len() {
                    point + 1
                } else {
                    content.len() as int
                })
            },
            Command::RetreatPoint => {
                &&& new_content == content
                &&& new_point == (if point - 1 > 0 {
                    point - 1
                } else {
                    0
                })
            },
            _ => new_content == content && new_point == point,
        },
{
    lemma_encode_ascii_len(content);
    let bytes = encode_utf8(content);
    match command {
        Command::BufferInsert(ch) => {
            let p = point as int;
            let target = content.take(p) + seq![ch] + content.skip(p);
            lemma_encode_ascii_split(content, p);
            lemma_encode_concat(content.take(p), seq![ch]);
            lemma_encode_concat(content.take(p) + seq![ch], content.skip(p));
            assert(encode_utf8(new_content) == encode_utf8(target));
            encode_utf8_decode_utf8(new_content);
            encode_utf8_decode_utf8(target);
        },
        Command::BufferDelete => {
            let idx = delete_index(point as int, content.len() as int);
            let target = content.remove(idx);
            assert(0 <= idx < content.len());
            lemma_encode_ascii_split(content, idx);
            lemma_encode_ascii_split(content, idx + 1);
            lemma_encode_ascii_char(content[idx]);
            let rest = content.skip(idx);
            assert(rest[0] == content[idx]);
            assert(encode_utf8(rest) =~= encode_scalar(rest[0] as u32) + encode_utf8(
                rest.drop_first(),
            ));
            assert(bytes.skip(idx)[0] == encode_scalar(content[idx] as u32)[0]);
            assert(length_of_first_scalar(bytes.skip(idx)) == 1);
            assert(target =~= content.take(idx) + content.skip(idx + 1));
            lemma_encode_concat(content.take(idx), content.skip(idx + 1));
            assert(encode_utf8(new_content) == encode_utf8(target));
            encode_utf8_decode_utf8(new_content);
            encode_utf8_decode_utf8(target);
        },
        _ => {},
    }
}

} // verus!
