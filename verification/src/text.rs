//! Bytes read as text.

use vstd::prelude::*;
use vstd::utf8::{
    decode_utf8, encode_utf8, encode_utf8_decode_utf8, encode_utf8_valid_utf8, is_ascii_chars,
    is_ascii_chars_encode_utf8, valid_utf8,
};

verus! {

/// The text of bytes that are UTF-8, and `None` for bytes that are not.
///
/// Trusted: the body calls `std::str::from_utf8`. The contract says of it
/// what its documentation says (it accepts exactly the valid UTF-8 byte
/// strings, and the string it gives is made of the characters they encode),
/// in the terms in which `vstd::utf8` states validity and decoding.
#[verifier::external_body]
pub(crate) fn text_from_utf8(bytes: &[u8]) -> (text: Option<String>)
    ensures
        match text {
            Some(text) => valid_utf8(bytes@) && text@ == decode_utf8(bytes@),
            None => !valid_utf8(bytes@),
        },
{
    match std::str::from_utf8(bytes) {
        Ok(text) => Some(text.to_owned()),
        Err(_) => None,
    }
}

/// Whether every byte is ASCII (below 128).
pub open spec fn is_ascii_bytes(bytes: Seq<u8>) -> bool {
    forall|i: int| 0 <= i < bytes.len() ==> #[trigger] bytes[i] < 128
}

/// The text that ASCII bytes spell: one character for each byte.
pub open spec fn ascii_text(bytes: Seq<u8>) -> Seq<char> {
    Seq::new(bytes.len(), |i: int| bytes[i] as char)
}

/// The bytes of an ASCII text: one byte for each character.
pub open spec fn ascii_bytes(text: Seq<char>) -> Seq<u8> {
    Seq::new(text.len(), |i: int| text[i] as u8)
}

/// ASCII bytes are valid UTF-8, and decode to one character for each byte.
pub proof fn lemma_ascii_is_utf8(bytes: Seq<u8>)
    requires
        is_ascii_bytes(bytes),
    ensures
        valid_utf8(bytes),
        decode_utf8(bytes) == ascii_text(bytes),
        is_ascii_chars(ascii_text(bytes)),
{
    let text = ascii_text(bytes);
    assert(is_ascii_chars(text)) by {
        assert forall|i: int| 0 <= i < text.len() implies '\0' <= #[trigger] text[i] <= '\u{7f}' by {
            assert(bytes[i] < 128);
        }
    }
    is_ascii_chars_encode_utf8(text);
    assert(encode_utf8(text) =~= bytes) by {
        assert forall|i: int| 0 <= i < bytes.len() implies encode_utf8(text)[i] == bytes[i] by {
            assert(bytes[i] < 128);
            assert(text[i] as u8 == bytes[i]);
        }
    }
    encode_utf8_valid_utf8(text);
    encode_utf8_decode_utf8(text);
}

/// ASCII text is what its bytes spell.
pub proof fn lemma_ascii_round_trip(text: Seq<char>)
    requires
        is_ascii_chars(text),
    ensures
        is_ascii_bytes(ascii_bytes(text)),
        ascii_text(ascii_bytes(text)) == text,
{
    let bytes = ascii_bytes(text);
    assert forall|i: int| 0 <= i < bytes.len() implies #[trigger] bytes[i] < 128 by {
        assert('\0' <= text[i] <= '\u{7f}');
    }
    assert(ascii_text(bytes) =~= text) by {
        assert forall|i: int| 0 <= i < text.len() implies ascii_text(bytes)[i] == text[i] by {
            assert('\0' <= text[i] <= '\u{7f}');
        }
    }
}

/// The text that ASCII bytes spell.
pub fn text_from_ascii(bytes: &[u8]) -> (text: String)
    requires
        is_ascii_bytes(bytes@),
    ensures
        text@ == ascii_text(bytes@),
{
    proof {
        lemma_ascii_is_utf8(bytes@);
    }
    match text_from_utf8(bytes) {
        Some(text) => text,
        None => String::new(),
    }
}

} // verus!
