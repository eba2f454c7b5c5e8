//! The stored record of one note.

use vstd::prelude::*;
use crate::error::ErrorCode;

verus! {

/// The greatest number of bytes that the content hash of a note may occupy.
pub const MAX_HASH_BYTES: usize = 64;

/// Bytes that stand before every stored record and tell its kind.
pub const HEADER_BYTES: usize = 8;

/// Bytes of a key.
pub const KEY_BYTES: usize = 32;

/// Bytes that give the length of the stored content hash.
pub const LENGTH_PREFIX_BYTES: usize = 4;

/// The space set aside for one stored note: the header, the owner's key, the
/// number, the content hash at its longest behind its length, the time and
/// the flag.
pub const NOTE_SPACE: usize = HEADER_BYTES + KEY_BYTES + 8 + LENGTH_PREFIX_BYTES + MAX_HASH_BYTES
    + 8 + 1;

/// What a note is, as a mathematical value.
pub struct NoteRecord {
    pub owner: Seq<u8>,
    pub note_id: u64,
    pub content_hash: Seq<char>,
    pub timestamp: i64,
    pub is_permanent: bool,
}

/// A note as the ledger stores it.
#[derive(Debug, PartialEq, Eq)]
pub struct NoteAccount {
    /// Key of the signer that created the note.
    pub owner: [u8; 32],
    /// Number that the owner chose for the note.
    pub note_id: u64,
    /// Reference to the content, which is kept elsewhere.
    pub arweave_hash: String,
    /// Time of creation as the creator gave it.
    pub timestamp: i64,
    /// Whether the note has been sealed.
    pub is_permanent: bool,
}

impl View for NoteAccount {
    type V = NoteRecord;

    open spec fn view(&self) -> NoteRecord {
        NoteRecord {
            owner: self.owner@,
            note_id: self.note_id,
            content_hash: self.arweave_hash@,
            timestamp: self.timestamp,
            is_permanent: self.is_permanent,
        }
    }
}

impl Clone for NoteAccount {
    fn clone(&self) -> (copy: Self)
        ensures
            copy@ == self@,
    {
        NoteAccount {
            owner: self.owner,
            note_id: self.note_id,
            arweave_hash: self.arweave_hash.clone(),
            timestamp: self.timestamp,
            is_permanent: self.is_permanent,
        }
    }
}

/// The number of bytes that a content hash occupies in storage.
pub open spec fn hash_bytes(content_hash: Seq<char>) -> nat {
    vstd::utf8::encode_utf8(content_hash).len()
}

/// Whether a content hash fits the space that a record sets aside for it.
pub open spec fn hash_fits(content_hash: Seq<char>) -> bool {
    hash_bytes(content_hash) <= MAX_HASH_BYTES
}

/// The number of bytes that a note occupies in storage.
pub open spec fn stored_bytes(note: NoteRecord) -> nat {
    HEADER_BYTES as nat + KEY_BYTES as nat + 8 + LENGTH_PREFIX_BYTES as nat + hash_bytes(
        note.content_hash,
    ) + 8 + 1
}

/// The note that a creation stores: not yet permanent.
pub open spec fn fresh_note(
    owner: Seq<u8>,
    note_id: u64,
    content_hash: Seq<char>,
    timestamp: i64,
) -> NoteRecord {
    NoteRecord { owner, note_id, content_hash, timestamp, is_permanent: false }
}

/// The same note, sealed.
pub open spec fn sealed(note: NoteRecord) -> NoteRecord {
    NoteRecord { is_permanent: true, ..note }
}

/// The outcome of sealing a note when asked for the note numbered `note_id`.
pub open spec fn seal_check(note: NoteRecord, note_id: u64) -> Result<(), ErrorCode> {
    if note.note_id == note_id {
        Ok(())
    } else {
        Err(ErrorCode::InvalidNoteId)
    }
}

impl NoteAccount {
    /// A fresh note: it holds what is given and is not permanent.
    pub fn new(owner: [u8; 32], note_id: u64, arweave_hash: String, timestamp: i64) -> (note:
        NoteAccount)
        ensures
            note@ == fresh_note(owner@, note_id, arweave_hash@, timestamp),
    {
        NoteAccount { owner, note_id, arweave_hash, timestamp, is_permanent: false }
    }

    /// Seals the note if it is the one numbered `note_id`, and fails with
    /// `InvalidNoteId`, changing nothing, if it carries another number. A
    /// note that is already permanent stays so.
    pub fn seal(&mut self, note_id: u64) -> (outcome: Result<(), ErrorCode>)
        ensures
            outcome == seal_check(old(self)@, note_id),
            outcome is Ok ==> final(self)@ == sealed(old(self)@),
            outcome is Err ==> *final(self) == *old(self),
    {
        if self.note_id != note_id {
            return Err(ErrorCode::InvalidNoteId);
        }
        self.is_permanent = true;
        Ok(())
    }
}

/// Tells whether a content hash fits the space that a record sets aside for it.
pub fn content_hash_fits(content_hash: &String) -> (fits: bool)
    ensures
        fits == hash_fits(content_hash@),
{
    content_hash.as_str().as_bytes().len() <= MAX_HASH_BYTES
}

} // verus!
