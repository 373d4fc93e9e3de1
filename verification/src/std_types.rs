use vstd::prelude::*;

verus! {

/// std's I/O error type, carried through results unopened.
#[verifier::external_type_specification]
#[verifier::external_body]
pub struct ExIoError(std::io::Error);


/// std's error for bytes that are not valid UTF-8, carried through results unopened.
#[verifier::external_type_specification]
#[verifier::external_body]
pub struct ExUtf8Error(std::str::Utf8Error);

} // verus!
