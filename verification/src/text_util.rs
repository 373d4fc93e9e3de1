use vstd::prelude::*;
use vstd::utf8::{
    decode_first_scalar, decode_utf8, encode_utf8, is_char_boundary, length_of_first_scalar,
    valid_utf8,
};

verus! {

/// The characters of a string slice, in order.
pub fn chars_of(s: &str) -> (out: Vec<char>)
    ensures
        out@ == s@,
{
    let mut out: Vec<char> = Vec::new();
    for c in it: s.chars()
        invariant
            out@ == it.seq().take(it.index() as int),
    {
        out.push(c);
    }
    out
}

/// Appends one character to a string (std's `String::push`).
/// Trusted: the contract claims what std documents, that the string's
/// characters afterwards are its former characters followed by `c`.
#[verifier::external_body]
pub(crate) fn push_char(s: &mut String, c: char)
    ensures
        final(s)@ == old(s)@.push(c),
{
    s.push(c);
}

/// A string holding exactly the given characters.
pub fn string_from_chars(chars: &Vec<char>) -> (out: String)
    ensures
        out@ == chars@,
{
    let mut out = String::new();
    let mut i: usize = 0;
    while i < chars.len()
        invariant
            i <= chars.len(),
            out@ == chars@.take(i as int),
        decreases chars.len() - i,
    {
        push_char(&mut out, chars[i]);
        assert(chars@.take(i + 1) =~= chars@.take(i as int).push(chars@[i as int]));
        i = i + 1;
    }
    assert(chars@.take(chars.len() as int) =~= chars@);
    out
}

/// `s` with every NUL character removed.
pub open spec fn without_nuls(s: Seq<char>) -> Seq<char>
    decreases s.len(),
{
    if s.len() == 0 {
        s
    } else if s.last() == '\0' {
        without_nuls(s.drop_last())
    } else {
        without_nuls(s.drop_last()).push(s.last())
    }
}

/// Removing NULs from two texts one after the other removes them from each.
pub proof fn lemma_without_nuls_concat(a: Seq<char>, b: Seq<char>)
    ensures
        without_nuls(a + b) == without_nuls(a) + without_nuls(b),
    decreases b.len(),
{
    if b.len() == 0 {
        assert(a + b =~= a);
        assert(without_nuls(b) =~= Seq::<char>::empty());
    } else {
        assert((a + b).drop_last() =~= a + b.drop_last());
        lemma_without_nuls_concat(a, b.drop_last());
        assert((a + b).last() == b.last());
        if b.last() != '\0' {
            assert(without_nuls(a + b) =~= without_nuls(a) + without_nuls(b));
        }
    }
}

/// The string of the characters of `s` that are not NUL, in order.
pub fn string_without_nuls(s: &str) -> (out: String)
    ensures
        out@ == without_nuls(s@),
{
    let cs = chars_of(s);
    let mut out = String::new();
    let mut i: usize = 0;
    while i < cs.len()
        invariant
            i <= cs.len(),
            cs@ == s@,
            out@ == without_nuls(cs@.take(i as int)),
        decreases cs.len() - i,
    {
        assert(cs@.take(i + 1).drop_last() =~= cs@.take(i as int));
        if cs[i] != '\0' {
            push_char(&mut out, cs[i]);
        }
        i = i + 1;
    }
    assert(cs@.take(cs.len() as int) =~= s@);
    out
}

/// The string slice that `bytes` encode in UTF-8 (std's `str::from_utf8`).
/// Trusted: the contract claims what std documents: success exactly when
/// the bytes are valid UTF-8, and then the decoded characters.
#[verifier::external_body]
pub(crate) fn str_from_utf8(bytes: &[u8]) -> (r: Result<&str, std::str::Utf8Error>)
    ensures
        r is Ok <==> valid_utf8(bytes@),
        r matches Ok(s) ==> s@ == decode_utf8(bytes@),
{
    std::str::from_utf8(bytes)
}

/// Whether two character sequences are equal.
pub fn chars_equal(a: &Vec<char>, b: &Vec<char>) -> (r: bool)
    ensures
        r == (a@ == b@),
{
    if a.len() != b.len() {
        return false;
    }
    let mut i: usize = 0;
    while i < a.len()
        invariant
            i <= a.len(),
            a.len() == b.len(),
            a@.take(i as int) == b@.take(i as int),
        decreases a.len() - i,
    {
        if a[i] != b[i] {
            assert(a@[i as int] != b@[i as int]);
            return false;
        }
        assert(a@.take(i + 1) =~= a@.take(i as int).push(a@[i as int]));
        assert(b@.take(i + 1) =~= b@.take(i as int).push(b@[i as int]));
        i = i + 1;
    }
    assert(a@.take(a.len() as int) =~= a@);
    assert(b@.take(b.len() as int) =~= b@);
    true
}

/// Whether two string slices hold the same characters.
pub fn str_equals(a: &str, b: &str) -> (r: bool)
    ensures
        r == (a@ == b@),
{
    let ca = chars_of(a);
    let cb = chars_of(b);
    chars_equal(&ca, &cb)
}


/// Inserts `ch` into a string at the byte index `idx` (std's
/// `String::insert`). Trusted: the contract claims what std documents:
/// the UTF-8 bytes of `ch` go in at `idx`, which must lie on a character
/// boundary within the string (std panics otherwise, so `requires` leaves
/// those inputs out).
#[verifier::external_body]
pub(crate) fn string_insert(s: &mut String, idx: usize, ch: char)
    requires
        idx <= encode_utf8(old(s)@).len(),
        is_char_boundary(encode_utf8(old(s)@), idx as int),
    ensures
        encode_utf8(final(s)@) == encode_utf8(old(s)@).take(idx as int) + encode_utf8(seq![ch])
            + encode_utf8(old(s)@).skip(idx as int),
{
    s.insert(idx, ch);
}

/// Removes the character that starts at the byte index `idx` of a string
/// and returns it (std's `String::remove`). Trusted: the contract claims
/// what std documents: the character whose UTF-8 bytes begin at `idx`
/// goes, and is returned; `idx` must lie on a character boundary before
/// the end of the string (std panics otherwise, so `requires` leaves those
/// inputs out).
#[verifier::external_body]
pub(crate) fn string_remove(s: &mut String, idx: usize) -> (ch: char)
    requires
        idx < encode_utf8(old(s)@).len(),
        is_char_boundary(encode_utf8(old(s)@), idx as int),
    ensures
        ({
            let bytes = encode_utf8(old(s)@);
            let width = length_of_first_scalar(bytes.skip(idx as int));
            &&& encode_utf8(final(s)@) == bytes.take(idx as int) + bytes.skip(idx + width)
            &&& ch as u32 == decode_first_scalar(bytes.skip(idx as int))
        }),
{
    s.remove(idx)
}

} // verus!
