//! The two operations as functions on a mathematical store of notes.

use vstd::prelude::*;
use crate::account::{fresh_note, hash_fits, seal_check, sealed, NoteRecord};
use crate::error::ErrorCode;

verus! {

/// The outcome of a creation. `address` is what the derivation gave for the
/// creator's key and the note's number.
pub open spec fn create_result(
    store: Map<Seq<u8>, NoteRecord>,
    address: Option<Seq<u8>>,
    signed: bool,
    content_hash: Seq<char>,
) -> Result<(), ErrorCode> {
    if !signed {
        Err(ErrorCode::Unauthorized)
    } else if address is None {
        Err(ErrorCode::AddressUnderivable)
    } else if store.dom().contains(address->Some_0) {
        Err(ErrorCode::AddressCollision)
    } else if !hash_fits(content_hash) {
        Err(ErrorCode::ValueTooLong)
    } else {
        Ok(())
    }
}

/// The store after a creation: one fresh note more where the creation
/// succeeds, and the store as it was where it fails.
pub open spec fn create_store(
    store: Map<Seq<u8>, NoteRecord>,
    address: Option<Seq<u8>>,
    signed: bool,
    owner: Seq<u8>,
    note_id: u64,
    content_hash: Seq<char>,
    timestamp: i64,
) -> Map<Seq<u8>, NoteRecord> {
    if create_result(store, address, signed, content_hash) is Ok {
        store.insert(address->Some_0, fresh_note(owner, note_id, content_hash, timestamp))
    } else {
        store
    }
}

/// The outcome of a seal. `address` is what the derivation gave for the
/// requester's key and the note's number.
pub open spec fn seal_result(
    store: Map<Seq<u8>, NoteRecord>,
    address: Option<Seq<u8>>,
    signed: bool,
    note_id: u64,
) -> Result<(), ErrorCode> {
    if !signed {
        Err(ErrorCode::Unauthorized)
    } else if address is None {
        Err(ErrorCode::AddressUnderivable)
    } else if !store.dom().contains(address->Some_0) {
        Err(ErrorCode::RecordNotFound)
    } else {
        seal_check(store[address->Some_0], note_id)
    }
}

/// The store after a seal: the note at the address is permanent where the
/// seal succeeds, whether or not it was before; the store is as it was where
/// the seal fails.
pub open spec fn seal_store(
    store: Map<Seq<u8>, NoteRecord>,
    address: Option<Seq<u8>>,
    signed: bool,
    note_id: u64,
) -> Map<Seq<u8>, NoteRecord> {
    if seal_result(store, address, signed, note_id) is Ok {
        store.insert(address->Some_0, sealed(store[address->Some_0]))
    } else {
        store
    }
}

/// Whether the content hash of every note in the store fits the space of a
/// record.
pub open spec fn all_fit(store: Map<Seq<u8>, NoteRecord>) -> bool {
    forall|address: Seq<u8>| #[trigger]
        store.dom().contains(address) ==> hash_fits(store[address].content_hash)
}

} // verus!
