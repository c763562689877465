//! Ownership of the engine's heap-allocated, null-terminated text buffers.

use vstd::prelude::*;

verus! {

/// What `std::str::from_utf8` returns on a byte sequence: the decoded
/// characters when the bytes are valid UTF-8, and nothing otherwise.
pub uninterp spec fn utf8_decode(bytes: Seq<u8>) -> Option<Seq<char>>;

/// What std's `Debug` formatting produces for a `str`: the quoted, escaped
/// rendering, a function of the characters alone.
pub uninterp spec fn str_debug_repr(s: Seq<char>) -> Seq<char>;

/// Relies on `std::str::from_utf8`: succeeds when and only when the bytes
/// are valid UTF-8, and then returns their decoding.
#[verifier::external_body]
fn decode_utf8(bytes: &[u8]) -> (r: Option<&str>)
    ensures
        r is Some <==> utf8_decode(bytes@) is Some,
        r matches Some(s) ==> Some(s@) == utf8_decode(bytes@),
{
    std::str::from_utf8(bytes).ok()
}

/// Relies on std's `Debug` implementation for `str`: the escaped, quoted
/// form of the characters.
#[verifier::external_body]
fn escape_debug(s: &str) -> (r: String)
    ensures
        r@ == str_debug_repr(s@),
{
    format!("{:?}", s)
}

/// Relies on `String::push_str`: appends the characters of `string`.
pub assume_specification[ String::push_str ](s: &mut String, string: &str)
    ensures
        final(s)@ == old(s)@ + string@,
;

/// Exclusive owner of the contents of one engine-allocated text buffer.
///
/// The engine hands out heap strings as null-terminated byte buffers; the
/// unverified boundary copies such a buffer, terminator included, into a
/// `Text`, which from then on is the buffer's only owner. The contents are
/// the engine's canonical UTF-8 rendering of an element, but nothing here
/// assumes they decode: the debug rendering tolerates and marks invalid
/// sequences.
#[derive(Debug)]
pub struct Text {
    bytes: Vec<u8>,
}

impl View for Text {
    type V = Seq<u8>;

    /// The content bytes of the buffer, terminator excluded.
    closed spec fn view(&self) -> Seq<u8> {
        self.bytes@
    }
}

impl Text {
    /// A proper engine buffer: it ends in the terminator, its only zero byte.
    pub open spec fn buffer_wf(buf: Seq<u8>) -> bool {
        &&& buf.len() > 0
        &&& buf[buf.len() - 1] == 0
        &&& forall|i: int| 0 <= i < buf.len() - 1 ==> buf[i] != 0
    }

    /// The contents never contain a zero byte: inside the buffer, zero is
    /// only ever the terminator.
    pub open spec fn wf(self) -> bool {
        forall|i: int| 0 <= i < self@.len() ==> self@[i] != 0
    }

    /// Takes ownership of an engine buffer, terminator included. The view is
    /// everything before the terminator.
    pub fn new(buf: Vec<u8>) -> (r: Text)
        requires
            Text::buffer_wf(buf@),
        ensures
            r@ == buf@.take(buf@.len() - 1),
            r.wf(),
    {
        let mut bytes = buf;
        bytes.pop();
        Text { bytes }
    }

    /// Wraps content bytes that are already free of the terminator.
    pub(crate) fn from_content(bytes: Vec<u8>) -> (r: Text)
        requires
            forall|i: int| 0 <= i < bytes@.len() ==> bytes@[i] != 0,
        ensures
            r@ == bytes@,
            r.wf(),
    {
        Text { bytes }
    }

    /// Borrowed read-only view of the contents, terminator excluded.
    pub fn as_bytes(&self) -> (r: &[u8])
        ensures
            r@ == self@,
    {
        self.bytes.as_slice()
    }

    /// Human-readable rendering: `Text("...")` when the contents decode as
    /// UTF-8, `Text(<invalid UTF-8>)` otherwise. Never fails.
    pub fn debug_render(&self) -> (r: String)
        ensures
            utf8_decode(self@) is None ==> r@ == "Text(<invalid UTF-8>)"@,
            utf8_decode(self@) matches Some(cs) ==> r@ == "Text("@ + str_debug_repr(cs) + ")"@,
    {
        match decode_utf8(self.bytes.as_slice()) {
            Some(s) => {
                let mut out = "Text(".to_owned();
                let quoted = escape_debug(s);
                out.push_str(quoted.as_str());
                out.push_str(")");
                out
            },
            None => "Text(<invalid UTF-8>)".to_owned(),
        }
    }
}

} // verus!
