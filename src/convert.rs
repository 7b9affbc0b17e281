use vstd::prelude::*;
use vstd::slice::slice_to_vec;
use vstd::utf8::valid_utf8;
use crate::native::{NativePath, NativeString};
use crate::text::{
    REPLACEMENT_CHARACTER, bytes_of_text, lemma_empty_text_of_bytes, text_from_bytes, text_of_bytes,
};

verus! {

/// Native path to text. Never fails: a path that is valid UTF-8 comes back exactly,
/// and any other gets `REPLACEMENT_CHARACTER` in place of its invalid sequences.
pub fn path_buf_to_string(pb: &NativePath) -> (r: String)
    ensures
        r@ == text_of_bytes(pb@),
        !valid_utf8(pb@) ==> r@.contains(REPLACEMENT_CHARACTER),
        pb@.len() == 0 ==> r@.len() == 0,
{
    text_from_bytes(pb.as_bytes())
}

/// Text to native path: the path holds the text's UTF-8 encoding, unchanged.
pub fn string_to_path_buf(st: &str) -> (r: NativePath)
    ensures
        r@ == bytes_of_text(st@),
        st@.len() == 0 ==> r@.len() == 0,
{
    proof {
        lemma_empty_text_of_bytes(Seq::<u8>::empty());
    }
    NativePath::from_bytes(slice_to_vec(st.as_bytes()))
}

/// Native path reinterpreted as a native string: the same bytes.
pub fn path_buf_to_os_string(pb: &NativePath) -> (r: NativeString)
    ensures
        r@ == pb@,
{
    NativeString::from_bytes(slice_to_vec(pb.as_bytes()))
}

/// Native string reinterpreted as a native path: the same bytes.
pub fn os_string_to_path_buf(oss: &NativeString) -> (r: NativePath)
    ensures
        r@ == oss@,
{
    NativePath::from_bytes(slice_to_vec(oss.as_bytes()))
}

/// Native string to text, by the same rule as `path_buf_to_string`.
pub fn os_string_to_string(oss: &NativeString) -> (r: String)
    ensures
        r@ == text_of_bytes(oss@),
        !valid_utf8(oss@) ==> r@.contains(REPLACEMENT_CHARACTER),
        oss@.len() == 0 ==> r@.len() == 0,
{
    text_from_bytes(oss.as_bytes())
}

/// Text to native string: the string holds the text's UTF-8 encoding, unchanged.
pub fn string_to_os_string(st: &str) -> (r: NativeString)
    ensures
        r@ == bytes_of_text(st@),
        st@.len() == 0 ==> r@.len() == 0,
{
    proof {
        lemma_empty_text_of_bytes(Seq::<u8>::empty());
    }
    NativeString::from_bytes(slice_to_vec(st.as_bytes()))
}

} // verus!
