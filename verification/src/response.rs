//! Responses that are handed to the host.
//!
//! Text crosses the boundary as a C string: the bytes of the text, closed by a
//! zero byte that is not part of it. An [`OwnedResponse`] holds such a payload
//! and can therefore never hold a zero byte itself. Whoever receives one owns
//! it, and gives it up by passing it to [`free`].

use vstd::prelude::*;
use vstd::utf8::*;

verus! {

/// True when no byte of `bytes` is zero.
pub open spec fn nul_free(bytes: Seq<u8>) -> bool {
    forall|i: int| 0 <= i < bytes.len() ==> #[trigger] bytes[i] != 0u8
}

/// True when `text` is made of ASCII characters other than NUL.
pub open spec fn plain_text(text: Seq<char>) -> bool {
    forall|i: int| 0 <= i < text.len() ==> '\u{1}' <= #[trigger] text[i] <= '\u{7f}'
}

/// The payload that carries `text`: its UTF-8 bytes, or nothing where one of
/// them is zero and would cut the C string short.
pub open spec fn handle_for(text: Seq<char>) -> Option<Seq<u8>> {
    if nul_free(encode_utf8(text)) {
        Some(encode_utf8(text))
    } else {
        None
    }
}

/// The payload of a handle that may be null.
pub open spec fn carried(handle: Option<OwnedResponse>) -> Option<Seq<u8>> {
    match handle {
        Some(response) => Some(response@),
        None => None,
    }
}

/// Plain text is carried byte for character, and always has a payload.
pub proof fn lemma_plain_text_bytes(text: Seq<char>)
    requires
        plain_text(text),
    ensures
        encode_utf8(text).len() == text.len(),
        nul_free(encode_utf8(text)),
        handle_for(text) == Some(encode_utf8(text)),
{
    assert(is_ascii_chars(text));
    is_ascii_chars_encode_utf8(text);
    assert forall|i: int| 0 <= i < encode_utf8(text).len() implies #[trigger] encode_utf8(text)[i]
        != 0u8 by {
        assert(text[i] as u8 == encode_utf8(text)[i]);
    }
}

/// Plain text joined to plain text is plain.
pub proof fn lemma_plain_text_concat(head: Seq<char>, tail: Seq<char>)
    requires
        plain_text(head),
        plain_text(tail),
    ensures
        plain_text(head + tail),
{
    let joined = head + tail;
    assert forall|i: int| 0 <= i < joined.len() implies '\u{1}' <= #[trigger] joined[i]
        <= '\u{7f}' by {
        if i < head.len() {
            assert(joined[i] == head[i]);
        } else {
            assert(joined[i] == tail[i - head.len()]);
        }
    }
}

/// A response that the host owns: the bytes of a C string, without the zero
/// byte that ends it.
pub struct OwnedResponse {
    bytes: Vec<u8>,
}

impl View for OwnedResponse {
    type V = Seq<u8>;

    closed spec fn view(&self) -> Seq<u8> {
        self.bytes@
    }
}

impl OwnedResponse {
    #[verifier::type_invariant]
    spec fn terminator_free(self) -> bool {
        nul_free(self.bytes@)
    }

    /// Makes the response that carries `text`. There is none where the text
    /// holds a zero byte: nothing is handed over rather than a part of it.
    pub fn from_text(text: &str) -> (handle: Option<OwnedResponse>)
        ensures
            carried(handle) == handle_for(text@),
    {
        let source = text.as_bytes();
        let mut bytes: Vec<u8> = Vec::new();
        let mut i: usize = 0;
        while i < source.len()
            invariant
                i <= source.len(),
                source@ == encode_utf8(text@),
                bytes@ == source@.subrange(0, i as int),
                nul_free(bytes@),
            decreases source.len() - i,
        {
            if source[i] == 0 {
                return None;
            }
            bytes.push(source[i]);
            i = i + 1;
        }
        assert(bytes@ == source@);
        Some(OwnedResponse { bytes })
    }

    /// Makes the response that carries a text known to be plain.
    pub(crate) fn from_plain(text: &str) -> (response: OwnedResponse)
        requires
            plain_text(text@),
        ensures
            response@ == encode_utf8(text@),
    {
        proof {
            lemma_plain_text_bytes(text@);
        }
        match OwnedResponse::from_text(text) {
            Some(response) => response,
            None => unreached(),
        }
    }

    /// The payload. No byte of it is zero.
    pub fn as_bytes(&self) -> (bytes: &[u8])
        ensures
            bytes@ == self@,
            nul_free(bytes@),
    {
        proof {
            use_type_invariant(self);
        }
        self.bytes.as_slice()
    }

    /// Gives up the response for its payload.
    pub fn into_bytes(self) -> (bytes: Vec<u8>)
        ensures
            bytes@ == self@,
            nul_free(bytes@),
    {
        proof {
            use_type_invariant(&self);
        }
        self.bytes
    }
}

/// Releases a response: it is moved in and ends here. A response can
/// therefore be released once, and not be used after that. The null handle is
/// accepted, and nothing happens.
pub fn free(handle: Option<OwnedResponse>) {
    let _released = handle;
}

} // verus!
