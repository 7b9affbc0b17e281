use vstd::prelude::*;
use vstd::utf8::{decode_utf8, encode_utf8, encode_utf8_decode_utf8, encode_utf8_valid_utf8, valid_utf8};

verus! {

/// The character put in place of each byte sequence that is not valid UTF-8.
pub const REPLACEMENT_CHARACTER: char = '\u{FFFD}';

/// What lossy UTF-8 decoding makes of a byte sequence.
pub uninterp spec fn lossy_decoding(bytes: Seq<u8>) -> Seq<char>;

/// The text that native bytes stand for: their decoding where they are valid UTF-8,
/// and otherwise their lossy decoding, which puts `REPLACEMENT_CHARACTER` in place
/// of each invalid sequence.
pub open spec fn text_of_bytes(bytes: Seq<u8>) -> Seq<char> {
    if valid_utf8(bytes) {
        decode_utf8(bytes)
    } else {
        lossy_decoding(bytes)
    }
}

/// The native bytes that stand for a text: its UTF-8 encoding.
pub open spec fn bytes_of_text(text: Seq<char>) -> Seq<u8> {
    encode_utf8(text)
}

/// Relies on `String::from_utf8_lossy`: valid UTF-8 comes back decoded as it is;
/// otherwise each invalid sequence is replaced by U+FFFD REPLACEMENT CHARACTER.
/// The result depends on the bytes alone.
#[verifier::external_body]
fn decode_lossy(bytes: &[u8]) -> (r: String)
    ensures
        r@ == lossy_decoding(bytes@),
        valid_utf8(bytes@) ==> r@ == decode_utf8(bytes@),
        !valid_utf8(bytes@) ==> r@.contains(REPLACEMENT_CHARACTER),
{
    String::from_utf8_lossy(bytes).into_owned()
}

/// Decodes native bytes into text, never failing: valid UTF-8 is decoded exactly,
/// and anything else gets `REPLACEMENT_CHARACTER` in place of its invalid sequences.
pub(crate) fn text_from_bytes(bytes: &[u8]) -> (r: String)
    ensures
        r@ == text_of_bytes(bytes@),
        !valid_utf8(bytes@) ==> r@.contains(REPLACEMENT_CHARACTER),
        bytes@.len() == 0 ==> r@.len() == 0,
{
    let r = decode_lossy(bytes);
    proof {
        if bytes@.len() == 0 {
            lemma_empty_text_of_bytes(bytes@);
        }
    }
    r
}

/// Empty bytes stand for the empty text, and the empty text for empty bytes.
pub proof fn lemma_empty_text_of_bytes(bytes: Seq<u8>)
    requires
        bytes.len() == 0,
    ensures
        text_of_bytes(bytes) == Seq::<char>::empty(),
        bytes_of_text(Seq::<char>::empty()) == Seq::<u8>::empty(),
{
    let empty = Seq::<char>::empty();
    assert(bytes =~= encode_utf8(empty));
    encode_utf8_valid_utf8(empty);
    encode_utf8_decode_utf8(empty);
}

} // verus!
