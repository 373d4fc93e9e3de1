use vstd::prelude::*;
use vstd::std_specs::cmp::PartialEqSpecImpl;
use vstd::string::StringSliceAdditionalSpecFns;
use vstd::utf8::{
    decode_utf8, encode_scalar, encode_utf8, encode_utf8_decode_utf8, encode_utf8_valid_utf8,
    valid_utf8,
};

use crate::text_util::{
    lemma_without_nuls_concat, str_from_utf8, string_without_nuls, without_nuls,
};

verus! {

/// The length of every message type id, in bytes.
pub const MESSAGE_TYPE_ID_MAX_LENGTH: usize = 100;

/// Errors that can occur when making a [MessageType].
#[derive(Clone, Copy, Debug, PartialEq, Structural)]
pub enum MessageTypeError {
    /// The id is longer than `MESSAGE_TYPE_ID_MAX_LENGTH` bytes.
    MessageTypeIdTooLong,
}

/// The type of a message sent through Klh: its kind and its id. The id is
/// held as a fixed number of bytes: the UTF-8 bytes of the id's text,
/// followed by zero bytes.
#[derive(Clone, Copy, Debug, Eq, Hash)]
pub enum MessageType {
    /// An imperative request to change state in a plugin.
    Command([u8; 100]),
    /// A request for data from a plugin.
    Query([u8; 100]),
    /// A notification that plugins may subscribe to.
    Event([u8; 100]),
}

/// The id bytes of a text whose UTF-8 bytes are `bytes`: those bytes,
/// followed by zero bytes up to the id length.
pub open spec fn padded_id(bytes: Seq<u8>) -> Seq<u8> {
    bytes + Seq::new((MESSAGE_TYPE_ID_MAX_LENGTH - bytes.len()) as nat, |i: int| 0u8)
}

impl MessageType {
    /// The id bytes of the message type.
    pub open spec fn id_view(self) -> Seq<u8> {
        match self {
            MessageType::Command(b) => b@,
            MessageType::Query(b) => b@,
            MessageType::Event(b) => b@,
        }
    }

    /// The id bytes of the message type.
    pub fn id(&self) -> (r: &[u8; 100])
        ensures
            r@ == self.id_view(),
    {
        match self {
            MessageType::Command(b) => b,
            MessageType::Query(b) => b,
            MessageType::Event(b) => b,
        }
    }

    /// The id as readable text: the id bytes decoded as UTF-8, without the
    /// NUL characters that the zero bytes decode to.
    pub fn display_id(&self) -> (s: String)
        requires
            valid_utf8(self.id_view()),
        ensures
            s@ == without_nuls(decode_utf8(self.id_view())),
    {
        let bytes = self.id();
        let text = match str_from_utf8(bytes.as_slice()) {
            Ok(t) => t,
            Err(_) => {
                proof {
                    assert(false);
                }
                ""
            },
        };
        string_without_nuls(text)
    }

    /// A query whose id is the text `str_id`.
    /// # Errors
    /// `MessageTypeIdTooLong` when `str_id` is longer than
    /// `MESSAGE_TYPE_ID_MAX_LENGTH` bytes.
    pub fn query_from_str(str_id: &str) -> (r: Result<Self, MessageTypeError>)
        ensures
            str_id.spec_bytes().len() > MESSAGE_TYPE_ID_MAX_LENGTH ==> r == Err::<
                Self,
                MessageTypeError,
            >(MessageTypeError::MessageTypeIdTooLong),
            str_id.spec_bytes().len() <= MESSAGE_TYPE_ID_MAX_LENGTH ==> (r matches Ok(m) && m is Query
                && m.id_view() == padded_id(str_id.spec_bytes())),
    {
        match id_from_str(str_id) {
            None => Err(MessageTypeError::MessageTypeIdTooLong),
            Some(id) => Ok(MessageType::Query(id)),
        }
    }

    /// A command whose id is the text `str_id`.
    /// # Errors
    /// `MessageTypeIdTooLong` when `str_id` is longer than
    /// `MESSAGE_TYPE_ID_MAX_LENGTH` bytes.
    pub fn command_from_str(str_id: &str) -> (r: Result<Self, MessageTypeError>)
        ensures
            str_id.spec_bytes().len() > MESSAGE_TYPE_ID_MAX_LENGTH ==> r == Err::<
                Self,
                MessageTypeError,
            >(MessageTypeError::MessageTypeIdTooLong),
            str_id.spec_bytes().len() <= MESSAGE_TYPE_ID_MAX_LENGTH ==> (r matches Ok(m)
                && m is Command && m.id_view() == padded_id(str_id.spec_bytes())),
    {
        match id_from_str(str_id) {
            None => Err(MessageTypeError::MessageTypeIdTooLong),
            Some(id) => Ok(MessageType::Command(id)),
        }
    }

    /// An event whose id is the text `str_id`.
    /// # Errors
    /// `MessageTypeIdTooLong` when `str_id` is longer than
    /// `MESSAGE_TYPE_ID_MAX_LENGTH` bytes.
    pub fn event_from_str(str_id: &str) -> (r: Result<Self, MessageTypeError>)
        ensures
            str_id.spec_bytes().len() > MESSAGE_TYPE_ID_MAX_LENGTH ==> r == Err::<
                Self,
                MessageTypeError,
            >(MessageTypeError::MessageTypeIdTooLong),
            str_id.spec_bytes().len() <= MESSAGE_TYPE_ID_MAX_LENGTH ==> (r matches Ok(m) && m is Event
                && m.id_view() == padded_id(str_id.spec_bytes())),
    {
        match id_from_str(str_id) {
            None => Err(MessageTypeError::MessageTypeIdTooLong),
            Some(id) => Ok(MessageType::Event(id)),
        }
    }

    /// Whether a message of this type carries a way to respond to it:
    /// commands and queries do, events do not.
    pub fn expects_response(&self) -> (r: bool)
        ensures
            r == !(*self is Event),
    {
        match self {
            MessageType::Event(_) => false,
            _ => true,
        }
    }

    /// Whether the id of the message type is the text `s`, whatever the
    /// kind of the message type.
    pub fn id_equals_str(&self, s: &str) -> (r: bool)
        ensures
            r == (s.spec_bytes().len() <= MESSAGE_TYPE_ID_MAX_LENGTH && self.id_view() == padded_id(
                s.spec_bytes(),
            )),
    {
        match id_from_str(s) {
            None => false,
            Some(id) => ids_equal(self.id(), &id),
        }
    }
}

/// `k` NUL characters.
pub open spec fn nul_chars(k: nat) -> Seq<char> {
    Seq::new(k, |i: int| '\0')
}

/// The UTF-8 bytes of two texts one after the other are their bytes one
/// after the other.
pub proof fn lemma_encode_concat(a: Seq<char>, b: Seq<char>)
    ensures
        encode_utf8(a + b) == encode_utf8(a) + encode_utf8(b),
    decreases a.len(),
{
    if a.len() == 0 {
        assert(a + b =~= b);
    } else {
        assert((a + b).drop_first() =~= a.drop_first() + b);
        lemma_encode_concat(a.drop_first(), b);
        assert(encode_utf8(a + b) =~= encode_utf8(a) + encode_utf8(b));
    }
}

/// `k` NUL characters encode to `k` zero bytes.
proof fn lemma_encode_nuls(k: nat)
    ensures
        encode_utf8(nul_chars(k)) == Seq::new(k, |i: int| 0u8),
    decreases k,
{
    if k > 0 {
        assert(nul_chars(k).drop_first() =~= nul_chars((k - 1) as nat));
        lemma_encode_nuls((k - 1) as nat);
        assert(('\0' as u32) == 0u32);
        assert(0u32 & 0x7F == 0u32) by (bit_vector);
        assert(encode_scalar(0u32) =~= seq![0u8]);
        assert(encode_utf8(nul_chars(k)) =~= Seq::new(k, |i: int| 0u8));
    }
}

/// Removing NULs from `k` NUL characters leaves nothing.
proof fn lemma_without_nuls_of_nuls(k: nat)
    ensures
        without_nuls(nul_chars(k)) == Seq::<char>::empty(),
    decreases k,
{
    if k > 0 {
        assert(nul_chars(k).drop_last() =~= nul_chars((k - 1) as nat));
        lemma_without_nuls_of_nuls((k - 1) as nat);
    }
}

/// The id bytes made from a text are valid UTF-8, and decode to the text
/// followed by NUL characters.
pub proof fn lemma_padded_id_decodes(s: Seq<char>)
    requires
        encode_utf8(s).len() <= MESSAGE_TYPE_ID_MAX_LENGTH,
    ensures
        valid_utf8(padded_id(encode_utf8(s))),
        without_nuls(decode_utf8(padded_id(encode_utf8(s)))) == without_nuls(s),
{
    let k = (MESSAGE_TYPE_ID_MAX_LENGTH - encode_utf8(s).len()) as nat;
    lemma_encode_nuls(k);
    lemma_encode_concat(s, nul_chars(k));
    assert(padded_id(encode_utf8(s)) =~= encode_utf8(s + nul_chars(k)));
    encode_utf8_valid_utf8(s + nul_chars(k));
    encode_utf8_decode_utf8(s + nul_chars(k));
    lemma_without_nuls_concat(s, nul_chars(k));
    lemma_without_nuls_of_nuls(k);
    assert(without_nuls(s) + Seq::<char>::empty() =~= without_nuls(s));
}

/// The readable id of a message type made from a text is that text, less
/// any NUL characters in it: for every kind of message type, reading the
/// id back gives what was written.
pub proof fn law_display_id_reads_back_str_id(str_id: &str, m: MessageType)
    requires
        str_id.spec_bytes().len() <= MESSAGE_TYPE_ID_MAX_LENGTH,
        m.id_view() == padded_id(str_id.spec_bytes()),
    ensures
        valid_utf8(m.id_view()),
        without_nuls(decode_utf8(m.id_view())) == without_nuls(str_id@),
{
    lemma_padded_id_decodes(str_id@);
}

/// The id bytes for the text `s`, or `None` when it is too long.
pub fn id_from_str(s: &str) -> (r: Option<[u8; 100]>)
    ensures
        s.spec_bytes().len() > MESSAGE_TYPE_ID_MAX_LENGTH ==> r is None,
        s.spec_bytes().len() <= MESSAGE_TYPE_ID_MAX_LENGTH ==> (r matches Some(id) && id@ == padded_id(
            s.spec_bytes(),
        )),
{
    let bytes = s.as_bytes();
    if bytes.len() > MESSAGE_TYPE_ID_MAX_LENGTH {
        return None;
    }
    let mut id: [u8; 100] = [0u8; 100];
    let mut index: usize = 0;
    while index < bytes.len()
        invariant
            bytes@ == s.spec_bytes(),
            bytes@.len() <= 100,
            index <= bytes@.len(),
            id@.len() == 100,
            forall|i: int| 0 <= i < index ==> id@[i] == bytes@[i],
            forall|i: int| index <= i < 100 ==> id@[i] == 0u8,
        decreases bytes.len() - index,
    {
        id[index] = bytes[index];
        index = index + 1;
    }
    assert(id@ =~= padded_id(s.spec_bytes()));
    Some(id)
}

/// Whether two ids hold the same bytes.
pub fn ids_equal(a: &[u8; 100], b: &[u8; 100]) -> (r: bool)
    ensures
        r == (a@ == b@),
{
    let mut i: usize = 0;
    while i < 100
        invariant
            i <= 100,
            a@.len() == 100,
            b@.len() == 100,
            forall|j: int| 0 <= j < i ==> a@[j] == b@[j],
        decreases 100 - i,
    {
        if a[i] != b[i] {
            return false;
        }
        i = i + 1;
    }
    assert(a@ =~= b@);
    true
}

impl PartialEq for MessageType {
    fn eq(&self, other: &Self) -> (r: bool) {
        match (self, other) {
            (MessageType::Command(a), MessageType::Command(b)) => ids_equal(a, b),
            (MessageType::Query(a), MessageType::Query(b)) => ids_equal(a, b),
            (MessageType::Event(a), MessageType::Event(b)) => ids_equal(a, b),
            _ => false,
        }
    }
}

impl PartialEqSpecImpl for MessageType {
    open spec fn obeys_eq_spec() -> bool {
        true
    }

    open spec fn eq_spec(&self, other: &Self) -> bool {
        match (*self, *other) {
            (MessageType::Command(a), MessageType::Command(b)) => a@ == b@,
            (MessageType::Query(a), MessageType::Query(b)) => a@ == b@,
            (MessageType::Event(a), MessageType::Event(b)) => a@ == b@,
            _ => false,
        }
    }
}

} // verus!
