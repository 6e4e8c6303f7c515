//! The operating system's random source.

use vstd::prelude::*;

verus! {

/// The error type of the `getrandom` crate. Nothing is known of its values.
#[verifier::external_type_specification]
#[verifier::external_body]
pub struct ExRandomError(getrandom::Error);

/// Calls `getrandom::getrandom` on a one-byte buffer and hands back the byte
/// it filled in, or the crate's error. Nothing is claimed of the byte: it is
/// whatever the operating system gave.
#[verifier::external_body]
pub(crate) fn os_random_byte() -> (result: Result<u8, getrandom::Error>) {
    let mut buffer = [0u8; 1];
    match getrandom::getrandom(&mut buffer) {
        Ok(()) => Ok(buffer[0]),
        Err(error) => Err(error),
    }
}

/// One byte from the operating system's random source, or `None` when the
/// source fails.
pub fn random_byte() -> Option<u8> {
    byte_offered(os_random_byte())
}

/// What an answer of the random source offers the machine: the byte it
/// gave, or `None` where it gave an error.
pub fn byte_offered(answer: Result<u8, getrandom::Error>) -> (byte: Option<u8>)
    ensures
        answer matches Ok(value) ==> byte == Some(value),
        answer is Err ==> byte == None::<u8>,
{
    match answer {
        Ok(value) => Some(value),
        Err(_) => None,
    }
}

} // verus!
