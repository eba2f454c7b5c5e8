//! Who stands behind a request.

use vstd::prelude::*;

verus! {

/// The party in whose name a request is made.
#[derive(Debug, Clone, Copy, PartialEq, Eq)]
pub struct Signer {
    /// The party's key.
    pub key: [u8; 32],
    /// Whether the party has signed the request.
    pub is_signer: bool,
}

/// The parties to a request that creates a note.
#[derive(Debug, Clone, Copy, PartialEq, Eq)]
pub struct InitializeNote {
    /// The creator, who becomes the note's owner.
    pub user: Signer,
}

/// The parties to a request that seals a note.
#[derive(Debug, Clone, Copy, PartialEq, Eq)]
pub struct SetPermanent {
    /// The party that asks for the seal; the note is sought under its key.
    pub user: Signer,
}

} // verus!
