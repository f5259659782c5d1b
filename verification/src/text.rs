//! Byte strings read as text.
use std::str::Utf8Error;
use vstd::prelude::*;
use vstd::string::StringSliceAdditionalSpecFns;
use vstd::utf8::valid_utf8;

verus! {

/// The error of a failed decoding of bytes as UTF-8.
#[verifier::external_type_specification]
#[verifier::external_body]
pub struct ExUtf8Error(Utf8Error);

/// Whether `r` is what decoding `bytes` as UTF-8 gives: the text with exactly
/// these bytes where they are valid UTF-8, and an error where they are not.
pub open spec fn decodes(bytes: Seq<u8>, r: Result<&str, Utf8Error>) -> bool {
    match r {
        Ok(s) => valid_utf8(bytes) && s.spec_bytes() == bytes,
        Err(_) => !valid_utf8(bytes),
    }
}

/// `std::str::from_utf8`: succeeds exactly on valid UTF-8, and the text it
/// returns then has the bytes it was given.
#[verifier::external_body]
pub(crate) fn str_from_utf8(bytes: &[u8]) -> (r: Result<&str, Utf8Error>)
    ensures
        decodes(bytes@, r),
{
    std::str::from_utf8(bytes)
}

/// Reads a diagnostic of the process-wide error slot as text: an error
/// exactly when its bytes are no UTF-8.
pub fn global_error_str(error: &[u8]) -> (r: Result<&str, Utf8Error>)
    ensures
        decodes(error@, r),
{
    str_from_utf8(error)
}

} // verus!
