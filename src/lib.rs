//! Conversions among three text-like representations: validated text (`String`),
//! native paths and native strings. Native values are modelled as the platform's
//! raw bytes (as on Unix), which need not be UTF-8; text always is.
//!
//! Text to native is lossless: the native value holds the text's UTF-8 encoding.
//! Native to text never fails: valid UTF-8 is decoded exactly, and each invalid
//! sequence becomes `REPLACEMENT_CHARACTER`. Paths and native strings convert into
//! each other unchanged.
mod convert;
mod laws;
mod native;
mod text;

pub use convert::{
    os_string_to_path_buf, os_string_to_string, path_buf_to_os_string, path_buf_to_string,
    string_to_os_string, string_to_path_buf,
};
pub use laws::{lemma_reinterpretation_round_trip, lemma_text_round_trip, lemma_valid_bytes_round_trip};
pub use native::{NativePath, NativeString};
pub use text::{
    REPLACEMENT_CHARACTER, bytes_of_text, lemma_empty_text_of_bytes, lossy_decoding, text_of_bytes,
};
