//! Text that crosses the boundary.
//!
//! Outbound text travels as a buffer of its UTF-8 bytes closed by one
//! terminator byte, so the text itself must hold no terminator. Inbound text
//! arrives in the same shape and is decoded leniently.

use vstd::prelude::*;
use vstd::slice::slice_subrange;
use vstd::utf8::*;

verus! {

/// The byte that closes a text buffer.
pub const TERMINATOR: u8 = 0;

/// Why a value could not be marshaled for the boundary.
#[derive(Debug, Clone, Copy, PartialEq, Eq, Structural)]
pub enum MarshalError {
    /// The text holds a terminator byte, first at this offset of its bytes.
    EmbeddedTerminator { position: usize },
}

/// Number of bytes before the first terminator byte; the whole length where
/// there is none.
pub open spec fn terminator_offset(bytes: Seq<u8>) -> nat
    decreases bytes.len(),
{
    if bytes.len() == 0 || bytes[0] == TERMINATOR {
        0
    } else {
        1 + terminator_offset(bytes.drop_first())
    }
}

/// What marshaling a run of bytes yields: the bytes themselves, or the place
/// of their first terminator.
pub open spec fn marshal_bytes(bytes: Seq<u8>) -> Result<Seq<u8>, MarshalError> {
    if bytes.contains(TERMINATOR) {
        Err(MarshalError::EmbeddedTerminator { position: terminator_offset(bytes) as usize })
    } else {
        Ok(bytes)
    }
}

/// What marshaling a text yields: its UTF-8 bytes, or the place of the first
/// terminator among them.
pub open spec fn marshal_text(text: Seq<char>) -> Result<Seq<u8>, MarshalError> {
    marshal_bytes(encode_utf8(text))
}

/// A text can be marshaled exactly when it holds no terminator character.
pub open spec fn is_marshalable(text: Seq<char>) -> bool {
    !text.contains('\0')
}

/// Where the first `i` bytes hold no terminator, the offset of the first
/// terminator is `i` as soon as byte `i` is one or the bytes end there.
pub proof fn lemma_terminator_offset(bytes: Seq<u8>, i: int)
    requires
        0 <= i <= bytes.len(),
        forall|j: int| 0 <= j < i ==> bytes[j] != TERMINATOR,
        i == bytes.len() || bytes[i] == TERMINATOR,
    ensures
        terminator_offset(bytes) == i,
        bytes.contains(TERMINATOR) <==> i < bytes.len(),
    decreases i,
{
    if i > 0 {
        let rest = bytes.drop_first();
        assert forall|j: int| 0 <= j < i - 1 implies rest[j] != TERMINATOR by {
            assert(rest[j] == bytes[j + 1]);
        }
        lemma_terminator_offset(rest, i - 1);
    }
    if i == bytes.len() {
        assert(!bytes.contains(TERMINATOR));
    } else {
        assert(bytes[i] == TERMINATOR);
    }
}

proof fn lemma_scalar_encoding_terminator(scalar: u32)
    by (bit_vector)
    requires
        scalar <= 0x10FFFF,
    ensures
        ((scalar & 0x7F) as u8 == 0u8 && scalar <= 0x7F) <==> scalar == 0,
        0xC0u8 | ((scalar >> 6) & 0x1F) as u8 != 0u8,
        0xE0u8 | ((scalar >> 12) & 0x0F) as u8 != 0u8,
        0xF0u8 | ((scalar >> 18) & 0x7) as u8 != 0u8,
        0x80u8 | (scalar & 0x3F) as u8 != 0u8,
        0x80u8 | ((scalar >> 6) & 0x3F) as u8 != 0u8,
        0x80u8 | ((scalar >> 12) & 0x3F) as u8 != 0u8,
{
}

/// The UTF-8 bytes of one character hold a terminator byte exactly when the
/// character is the terminator character.
pub proof fn lemma_char_encoding_terminator(c: char)
    ensures
        encode_scalar(c as u32).contains(TERMINATOR) <==> c == '\0',
{
    let scalar = c as u32;
    let bytes = encode_scalar(scalar);
    char_is_scalar(c);
    lemma_scalar_encoding_terminator(scalar);
    if c == '\0' {
        assert(bytes[0] == TERMINATOR);
    } else {
        assert(scalar != 0);
        assert forall|i: int| 0 <= i < bytes.len() implies bytes[i] != TERMINATOR by {}
    }
}

/// The UTF-8 bytes of a text hold a terminator byte exactly when the text
/// holds the terminator character.
pub proof fn lemma_encoding_terminator(text: Seq<char>)
    ensures
        encode_utf8(text).contains(TERMINATOR) <==> !is_marshalable(text),
    decreases text.len(),
{
    if text.len() > 0 {
        let head = encode_scalar(text[0] as u32);
        let rest = text.drop_first();
        let tail = encode_utf8(rest);
        lemma_char_encoding_terminator(text[0]);
        lemma_encoding_terminator(rest);
        assert(encode_utf8(text) == head + tail);
        if head.contains(TERMINATOR) {
            let i = choose|i: int| 0 <= i < head.len() && head[i] == TERMINATOR;
            assert((head + tail)[i] == TERMINATOR);
            assert(text[0] == '\0');
        }
        if tail.contains(TERMINATOR) {
            let i = choose|i: int| 0 <= i < tail.len() && tail[i] == TERMINATOR;
            assert((head + tail)[head.len() + i] == TERMINATOR);
            let k = choose|k: int| 0 <= k < rest.len() && rest[k] == '\0';
            assert(text[k + 1] == '\0');
        }
        if (head + tail).contains(TERMINATOR) {
            let i = choose|i: int| 0 <= i < (head + tail).len() && (head + tail)[i] == TERMINATOR;
            if i < head.len() {
                assert(head[i] == TERMINATOR);
            } else {
                assert(tail[i - head.len()] == TERMINATOR);
            }
        }
        if text.contains('\0') {
            let k = choose|k: int| 0 <= k < text.len() && text[k] == '\0';
            if k > 0 {
                assert(rest[k - 1] == '\0');
            }
        }
    } else {
        assert(!encode_utf8(text).contains(TERMINATOR));
    }
}

/// What marshaling a run of items yields, each item by `marshal` and in
/// order: all of them marshaled, or the error of the first that fails.
pub open spec fn marshal_all<A, B>(
    items: Seq<A>,
    marshal: spec_fn(A) -> Result<B, MarshalError>,
) -> Result<Seq<B>, MarshalError>
    decreases items.len(),
{
    if items.len() == 0 {
        Ok(Seq::empty())
    } else {
        match marshal_all(items.drop_last(), marshal) {
            Err(e) => Err(e),
            Ok(done) => match marshal(items.last()) {
                Err(e) => Err(e),
                Ok(item) => Ok(done.push(item)),
            },
        }
    }
}

/// Marshaling one item more: the items before it decide first, then the
/// item itself.
pub proof fn lemma_marshal_all_step<A, B>(
    items: Seq<A>,
    marshal: spec_fn(A) -> Result<B, MarshalError>,
    n: int,
)
    requires
        0 <= n < items.len(),
    ensures
        marshal_all(items.take(n + 1), marshal) == match marshal_all(items.take(n), marshal) {
            Err(e) => Err::<Seq<B>, MarshalError>(e),
            Ok(done) => match marshal(items[n]) {
                Err(e) => Err(e),
                Ok(item) => Ok(done.push(item)),
            },
        },
{
    assert(items.take(n + 1).drop_last() == items.take(n));
    assert(items.take(n + 1).last() == items[n]);
}

/// An error among the first `n` items is the error of the whole run.
pub proof fn lemma_marshal_all_prefix_error<A, B>(
    items: Seq<A>,
    marshal: spec_fn(A) -> Result<B, MarshalError>,
    n: int,
)
    requires
        0 <= n <= items.len(),
        marshal_all(items.take(n), marshal) is Err,
    ensures
        marshal_all(items, marshal) == marshal_all(items.take(n), marshal),
    decreases items.len() - n,
{
    if n < items.len() {
        lemma_marshal_all_step(items, marshal, n);
        lemma_marshal_all_prefix_error(items, marshal, n + 1);
    } else {
        assert(items.take(n) == items);
    }
}

/// A run of items is marshaled exactly when each item can be, and then item
/// by item, in order.
pub proof fn lemma_marshal_all_ok<A, B>(
    items: Seq<A>,
    marshal: spec_fn(A) -> Result<B, MarshalError>,
)
    ensures
        marshal_all(items, marshal) is Ok <==> forall|i: int|
            0 <= i < items.len() ==> #[trigger] marshal(items[i]) is Ok,
        marshal_all(items, marshal) matches Ok(done) ==> done.len() == items.len() && forall|
            i: int,
        |
            0 <= i < items.len() ==> #[trigger] marshal(items[i]) == Ok::<B, MarshalError>(done[i]),
    decreases items.len(),
{
    if items.len() > 0 {
        let front = items.drop_last();
        lemma_marshal_all_ok(front, marshal);
        assert forall|i: int| 0 <= i < front.len() implies front[i] == items[i] by {}
        if marshal_all(items, marshal) is Ok {
            assert forall|i: int| 0 <= i < items.len() implies #[trigger] marshal(
                items[i],
            ) is Ok by {
                if i < front.len() {
                    assert(marshal(front[i]) is Ok);
                }
            }
        }
        if forall|i: int| 0 <= i < items.len() ==> #[trigger] marshal(items[i]) is Ok {
            assert forall|i: int| 0 <= i < front.len() implies #[trigger] marshal(
                front[i],
            ) is Ok by {
                assert(marshal(items[i]) is Ok);
            }
            assert(marshal(items[items.len() - 1]) is Ok);
        }
        if let Ok(done) = marshal_all(items, marshal) {
            let before = marshal_all(front, marshal)->Ok_0;
            assert forall|i: int| 0 <= i < items.len() implies #[trigger] marshal(items[i])
                == Ok::<B, MarshalError>(done[i]) by {
                if i < front.len() {
                    assert(marshal(front[i]) == Ok::<B, MarshalError>(before[i]));
                }
            }
        }
    }
}

/// A text held ready for the boundary: its bytes, free of terminators,
/// followed by one terminator byte in the same buffer.
#[derive(Debug, PartialEq, Eq)]
pub struct CText {
    buffer: Vec<u8>,
}

impl View for CText {
    type V = Seq<u8>;

    /// The bytes of the text, without the closing terminator.
    closed spec fn view(&self) -> Seq<u8> {
        self.buffer@.drop_last()
    }
}

impl Clone for CText {
    /// A second buffer that holds the same text.
    fn clone(&self) -> (r: Self)
        ensures
            r@ == self@,
    {
        proof {
            use_type_invariant(self);
        }
        let mut buffer: Vec<u8> = Vec::new();
        let mut i: usize = 0;
        while i < self.buffer.len()
            invariant
                0 <= i <= self.buffer.len(),
                buffer@ == self.buffer@.take(i as int),
            decreases self.buffer.len() - i,
        {
            buffer.push(self.buffer[i]);
            i = i + 1;
            assert(buffer@ == self.buffer@.take(i as int));
        }
        assert(self.buffer@.take(i as int) == self.buffer@);
        CText { buffer }
    }
}

/// The text that a lenient decoding of UTF-8 bytes yields: the decoded text
/// where the bytes are valid UTF-8; else a text in which each invalid run of
/// bytes is replaced by the replacement character.
pub uninterp spec fn utf8_lossy(bytes: Seq<u8>) -> Seq<char>;

/// `String::from_utf8_lossy`, made an owned `String`: the lenient decoding of
/// the bytes, a function of the bytes alone. Valid UTF-8 decodes to the text
/// that it encodes.
#[verifier::external_body]
fn string_from_utf8_lossy(bytes: &[u8]) -> (text: String)
    ensures
        text@ == utf8_lossy(bytes@),
        valid_utf8(bytes@) ==> text@ == decode_utf8(bytes@),
{
    String::from_utf8_lossy(bytes).into_owned()
}

/// The text that an inbound buffer stands for: the lenient decoding of its
/// bytes, and the empty text for no buffer.
pub open spec fn inbound_text(text: Option<CText>) -> Seq<char> {
    match text {
        Some(t) => utf8_lossy(t@),
        None => Seq::empty(),
    }
}

/// Decodes a text that came over the boundary. A null pointer, held as
/// nothing, reads as the empty text.
pub fn text_from_wire(text: &Option<CText>) -> (r: String)
    ensures
        r@ == inbound_text(*text),
{
    match text {
        Some(t) => t.decode(),
        None => String::new(),
    }
}

/// What a marshaling result holds, with the buffer seen as its bytes.
pub open spec fn marshaled_view(r: Result<CText, MarshalError>) -> Result<Seq<u8>, MarshalError> {
    match r {
        Ok(t) => Ok(t@),
        Err(e) => Err(e),
    }
}

impl CText {
    #[verifier::type_invariant]
    spec fn well_formed(self) -> bool {
        &&& self.buffer@.len() > 0
        &&& self.buffer@.last() == TERMINATOR
        &&& !self.buffer@.drop_last().contains(TERMINATOR)
    }

    /// Marshals a text: copies its UTF-8 bytes into a fresh terminated buffer,
    /// or reports the first terminator found among them.
    pub fn new(text: &str) -> (r: Result<CText, MarshalError>)
        ensures
            marshaled_view(r) == marshal_text(text@),
            r is Ok <==> is_marshalable(text@),
    {
        proof {
            lemma_encoding_terminator(text@);
        }
        CText::from_bytes(text.as_bytes())
    }

    /// Marshals a run of bytes: copies them into a fresh terminated buffer, or
    /// reports the first terminator found among them.
    pub fn from_bytes(bytes: &[u8]) -> (r: Result<CText, MarshalError>)
        ensures
            marshaled_view(r) == marshal_bytes(bytes@),
    {
        let mut buffer: Vec<u8> = Vec::new();
        let mut i: usize = 0;
        while i < bytes.len()
            invariant
                0 <= i <= bytes.len(),
                buffer@ == bytes@.take(i as int),
                forall|j: int| 0 <= j < i ==> bytes@[j] != TERMINATOR,
            decreases bytes.len() - i,
        {
            let byte: u8 = bytes[i];
            if byte == TERMINATOR {
                proof {
                    lemma_terminator_offset(bytes@, i as int);
                }
                return Err(MarshalError::EmbeddedTerminator { position: i });
            }
            buffer.push(byte);
            i = i + 1;
            assert(buffer@ == bytes@.take(i as int));
        }
        proof {
            lemma_terminator_offset(bytes@, i as int);
            assert(bytes@.take(i as int) == bytes@);
        }
        buffer.push(TERMINATOR);
        assert(buffer@.drop_last() == bytes@);
        Ok(CText { buffer })
    }

    /// The whole buffer: the bytes of the text and the terminator that closes
    /// them. The text bytes hold no terminator.
    pub fn as_bytes_with_nul(&self) -> (r: &[u8])
        ensures
            r@ == self@.push(TERMINATOR),
            !self@.contains(TERMINATOR),
    {
        proof {
            use_type_invariant(self);
            assert(self.buffer@ == self.buffer@.drop_last().push(self.buffer@.last()));
        }
        self.buffer.as_slice()
    }

    /// Decodes the text leniently. Bytes that are valid UTF-8 give the text
    /// that they encode, so a text marshaled by [`CText::new`] decodes to
    /// itself.
    pub fn decode(&self) -> (text: String)
        ensures
            text@ == utf8_lossy(self@),
            valid_utf8(self@) ==> text@ == decode_utf8(self@),
    {
        proof {
            use_type_invariant(self);
        }
        let n = self.buffer.len() - 1;
        let bytes = slice_subrange(self.buffer.as_slice(), 0, n);
        assert(bytes@ == self@);
        string_from_utf8_lossy(bytes)
    }

    /// Number of bytes of the text, the terminator not counted.
    pub fn len(&self) -> (n: usize)
        ensures
            n == self@.len(),
    {
        proof {
            use_type_invariant(self);
        }
        self.buffer.len() - 1
    }

    /// Whether the text is empty.
    pub fn is_empty(&self) -> (b: bool)
        ensures
            b == (self@.len() == 0),
    {
        self.len() == 0
    }
}

} // verus!
