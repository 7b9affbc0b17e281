use vstd::prelude::*;
use vstd::std_specs::cmp::PartialEqSpec;
use vstd::utf8::{
    decode_utf8_encode_utf8, encode_utf8_decode_utf8, encode_utf8_valid_utf8, valid_utf8,
};
use crate::native::{NativePath, NativeString};
use crate::text::{bytes_of_text, text_of_bytes};

verus! {

/// Text taken to a native path (or a native string) and back to text is unchanged:
/// `path_buf_to_string(&string_to_path_buf(t))` and
/// `os_string_to_string(&string_to_os_string(t))` both give back `t`.
pub proof fn lemma_text_round_trip(t: Seq<char>)
    ensures
        text_of_bytes(bytes_of_text(t)) == t,
{
    encode_utf8_valid_utf8(t);
    encode_utf8_decode_utf8(t);
}

/// Native bytes that are valid UTF-8, taken to text and back, are unchanged:
/// `string_to_path_buf(&path_buf_to_string(&p))` holds the bytes of `p`, and the
/// same holds of native strings.
pub proof fn lemma_valid_bytes_round_trip(b: Seq<u8>)
    requires
        valid_utf8(b),
    ensures
        bytes_of_text(text_of_bytes(b)) == b,
{
    decode_utf8_encode_utf8(b);
}

/// Reinterpretation between the two native roles keeps the content, so the two
/// directions undo each other: where `s` is what `path_buf_to_os_string` makes of
/// `p`, and `q` what `os_string_to_path_buf` makes of `s`, `q` equals `p`; and the
/// same the other way round.
pub proof fn lemma_reinterpretation_round_trip(
    p: NativePath,
    s: NativeString,
    q: NativePath,
    t: NativeString,
)
    requires
        s@ == p@,
        q@ == s@,
        t@ == q@,
    ensures
        q.eq_spec(&p),
        t.eq_spec(&s),
{
}

} // verus!
