//! Errors raised when a wire code has no domain value.

use crate::text::{lower_hex, push_lower_hex};
use vstd::prelude::*;

verus! {

/// Why a code could not be decoded.
#[derive(Debug, PartialEq, Eq)]
pub enum Error {
    /// A byte code that names no value; the message holds the byte in lowercase hex.
    InvalidArguments(String),
    /// A string code that names no character; holds the string as it was given.
    InvalidCharacterCode(String),
}

/// Whether `e` reports the byte `b` as unknown, with `what` after the byte.
pub open spec fn reports_byte(e: Error, b: u8, what: Seq<char>) -> bool {
    match e {
        Error::InvalidArguments(m) => m@ == lower_hex(b) + what,
        Error::InvalidCharacterCode(_) => false,
    }
}

/// Whether `e` reports the string `s` as an unknown character code.
pub open spec fn reports_code(e: Error, s: Seq<char>) -> bool {
    match e {
        Error::InvalidArguments(_) => false,
        Error::InvalidCharacterCode(m) => m@ == s,
    }
}

/// The error for an unknown byte code: the byte in lowercase hex, then `what`.
pub fn invalid_byte(b: u8, what: &str) -> (e: Error)
    ensures
        reports_byte(e, b, what@),
{
    let mut m = String::new();
    push_lower_hex(&mut m, b);
    m.append(what);
    Error::InvalidArguments(m)
}

} // verus!
