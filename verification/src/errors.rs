//! Why an operation is rejected.

use vstd::prelude::*;

verus! {

/// The text field that a failed validation refers to.
#[derive(Clone, Copy, Debug, PartialEq, Eq, Structural)]
pub enum Field {
    /// A profile's display name.
    Username,
    /// A post's content location.
    ContentUri,
    /// A post's description.
    Description,
    /// A tweet's topic together with its text.
    Tweet,
    /// A comment's text.
    Comment,
}

/// Why an operation was rejected. A rejected operation changes nothing.
#[derive(Clone, Copy, Debug, PartialEq, Eq, Structural)]
pub enum ErrorCode {
    /// A text is longer, in bytes, than the field that would hold it.
    ValidationError { field: Field, limit: usize },
    /// A counter would pass the largest value of its width.
    Overflow,
    /// A counter would fall below zero.
    Underflow,
    /// The signer is not the authority that the record names.
    Unauthorized,
    /// The seeds do not lead to the address that the request refers to.
    AddressMismatch,
    /// A record already lives at the address of a create.
    AlreadyExists,
    /// No record of the expected kind lives at an address to change or close.
    NotFound,
}

} // verus!
