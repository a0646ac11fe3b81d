//! Trusted bridge to the standard library's UTF-8 validation.
//!
//! The codec stores decoded string fields as `String`, so it has to go through
//! `core::str::from_utf8` to validate raw payload bytes; everything else about
//! strings is covered by `vstd`'s own specifications.

use vstd::prelude::*;
use vstd::utf8::{decode_utf8, valid_utf8};

verus! {

#[verifier::external_type_specification]
#[verifier::external_body]
pub struct ExUtf8Error(core::str::Utf8Error);

/// Relies on `core::str::from_utf8`: it succeeds exactly on valid UTF-8 input,
/// and the returned string slice holds the characters those bytes encode.
pub assume_specification[ core::str::from_utf8 ](v: &[u8]) -> (r: Result<
    &str,
    core::str::Utf8Error,
>)
    ensures
        r matches Ok(s) ==> valid_utf8(v@) && s@ == decode_utf8(v@),
        r matches Err(_) ==> !valid_utf8(v@),
;

} // verus!
