//! The ways in which a request can fail.

use vstd::prelude::*;

verus! {

/// Why a request was turned down.
#[derive(Debug, Clone, Copy, PartialEq, Eq)]
pub enum ErrorCode {
    /// A note already stands at the address.
    AddressCollision,
    /// The request was not signed by the party it names.
    Unauthorized,
    /// No note stands at the address.
    RecordNotFound,
    /// The note at the address carries another number than the one asked for.
    InvalidNoteId,
    /// The content hash does not fit the space of a record.
    ValueTooLong,
    /// No address can be derived for the owner and number.
    AddressUnderivable,
}

/// What a request that failed with `code` is told.
pub open spec fn message_of(code: ErrorCode) -> Seq<char> {
    match code {
        ErrorCode::AddressCollision => "A note already exists at this address"@,
        ErrorCode::Unauthorized => "The request is not signed"@,
        ErrorCode::RecordNotFound => "No note exists at this address"@,
        ErrorCode::InvalidNoteId => "Invalid note ID"@,
        ErrorCode::ValueTooLong => "The content hash is too long"@,
        ErrorCode::AddressUnderivable => "No address can be derived"@,
    }
}

impl ErrorCode {
    /// The message that goes with the error.
    pub fn message(&self) -> (text: &'static str)
        ensures
            text@ == message_of(*self),
    {
        match self {
            ErrorCode::AddressCollision => "A note already exists at this address",
            ErrorCode::Unauthorized => "The request is not signed",
            ErrorCode::RecordNotFound => "No note exists at this address",
            ErrorCode::InvalidNoteId => "Invalid note ID",
            ErrorCode::ValueTooLong => "The content hash is too long",
            ErrorCode::AddressUnderivable => "No address can be derived",
        }
    }
}

} // verus!
