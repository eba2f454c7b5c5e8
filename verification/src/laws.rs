//! What holds of the two operations, whatever the store.

use vstd::prelude::*;
use crate::account::{hash_fits, sealed, stored_bytes, NoteRecord, NOTE_SPACE};
use crate::address::note_address;
use crate::model::{all_fit, create_result, create_store, seal_result, seal_store};
use crate::error::ErrorCode;

verus! {

/// A signed creation, for an owner and number whose address is free and with
/// a content hash that fits, succeeds; the store then shows at the derived
/// address a note that is not permanent and holds what was supplied.
pub proof fn create_then_lookup(
    store: Map<Seq<u8>, NoteRecord>,
    program: Seq<u8>,
    owner: Seq<u8>,
    note_id: u64,
    content_hash: Seq<char>,
    timestamp: i64,
)
    requires
        note_address(owner, note_id, program) is Some,
        !store.dom().contains(note_address(owner, note_id, program)->Some_0),
        hash_fits(content_hash),
    ensures
        create_result(store, note_address(owner, note_id, program), true, content_hash) is Ok,
        create_store(
            store,
            note_address(owner, note_id, program),
            true,
            owner,
            note_id,
            content_hash,
            timestamp,
        ).dom().contains(note_address(owner, note_id, program)->Some_0),
        create_store(
            store,
            note_address(owner, note_id, program),
            true,
            owner,
            note_id,
            content_hash,
            timestamp,
        )[note_address(owner, note_id, program)->Some_0] == (NoteRecord {
            owner,
            note_id,
            content_hash,
            timestamp,
            is_permanent: false,
        }),
{
}

/// After a creation has succeeded, a second signed creation for the same
/// owner and number fails with `AddressCollision`, whatever content hash and
/// time it brings, and leaves the store as the first one made it.
pub proof fn create_twice_collides(
    store: Map<Seq<u8>, NoteRecord>,
    program: Seq<u8>,
    owner: Seq<u8>,
    note_id: u64,
    content_hash: Seq<char>,
    timestamp: i64,
    second_hash: Seq<char>,
    second_timestamp: i64,
)
    requires
        create_result(store, note_address(owner, note_id, program), true, content_hash) is Ok,
    ensures
        create_result(
            create_store(
                store,
                note_address(owner, note_id, program),
                true,
                owner,
                note_id,
                content_hash,
                timestamp,
            ),
            note_address(owner, note_id, program),
            true,
            second_hash,
        ) == Err::<(), ErrorCode>(ErrorCode::AddressCollision),
        create_store(
            create_store(
                store,
                note_address(owner, note_id, program),
                true,
                owner,
                note_id,
                content_hash,
                timestamp,
            ),
            note_address(owner, note_id, program),
            true,
            owner,
            note_id,
            second_hash,
            second_timestamp,
        ) == create_store(
            store,
            note_address(owner, note_id, program),
            true,
            owner,
            note_id,
            content_hash,
            timestamp,
        ),
{
}

/// A signed seal of a note that exists under the requester's key and the
/// number succeeds and leaves the note permanent, with nothing else of it
/// changed and every other note as it was.
pub proof fn seal_makes_permanent(
    store: Map<Seq<u8>, NoteRecord>,
    program: Seq<u8>,
    owner: Seq<u8>,
    note_id: u64,
)
    requires
        note_address(owner, note_id, program) is Some,
        store.dom().contains(note_address(owner, note_id, program)->Some_0),
        store[note_address(owner, note_id, program)->Some_0].note_id == note_id,
    ensures
        seal_result(store, note_address(owner, note_id, program), true, note_id) is Ok,
        seal_store(store, note_address(owner, note_id, program), true, note_id) == store.insert(
            note_address(owner, note_id, program)->Some_0,
            sealed(store[note_address(owner, note_id, program)->Some_0]),
        ),
        seal_store(store, note_address(owner, note_id, program), true, note_id)[note_address(
            owner,
            note_id,
            program,
        )->Some_0].is_permanent,
{
}

/// Sealing is idempotent: after a seal has succeeded, a second signed seal of
/// the same note succeeds too and leaves the store as the first one made it.
pub proof fn seal_twice_is_seal_once(
    store: Map<Seq<u8>, NoteRecord>,
    program: Seq<u8>,
    owner: Seq<u8>,
    note_id: u64,
)
    requires
        seal_result(store, note_address(owner, note_id, program), true, note_id) is Ok,
    ensures
        seal_result(
            seal_store(store, note_address(owner, note_id, program), true, note_id),
            note_address(owner, note_id, program),
            true,
            note_id,
        ) is Ok,
        seal_store(
            seal_store(store, note_address(owner, note_id, program), true, note_id),
            note_address(owner, note_id, program),
            true,
            note_id,
        ) == seal_store(store, note_address(owner, note_id, program), true, note_id),
{
    let address = note_address(owner, note_id, program);
    let once = seal_store(store, address, true, note_id);
    let twice = seal_store(once, address, true, note_id);
    assert(twice =~= once);
}

/// A signed seal for an owner and number at whose address no note stands
/// fails with `RecordNotFound` and changes nothing.
pub proof fn seal_missing_fails(
    store: Map<Seq<u8>, NoteRecord>,
    program: Seq<u8>,
    owner: Seq<u8>,
    note_id: u64,
)
    requires
        note_address(owner, note_id, program) is Some,
        !store.dom().contains(note_address(owner, note_id, program)->Some_0),
    ensures
        seal_result(store, note_address(owner, note_id, program), true, note_id) == Err::<
            (),
            ErrorCode,
        >(ErrorCode::RecordNotFound),
        seal_store(store, note_address(owner, note_id, program), true, note_id) == store,
{
}

/// Neither operation, whatever its outcome, brings a content hash that does
/// not fit into a store that held none.
pub proof fn steps_keep_fit(
    store: Map<Seq<u8>, NoteRecord>,
    address: Option<Seq<u8>>,
    signed: bool,
    owner: Seq<u8>,
    note_id: u64,
    content_hash: Seq<char>,
    timestamp: i64,
)
    requires
        all_fit(store),
    ensures
        all_fit(create_store(store, address, signed, owner, note_id, content_hash, timestamp)),
        all_fit(seal_store(store, address, signed, note_id)),
{
    let created = create_store(store, address, signed, owner, note_id, content_hash, timestamp);
    assert forall|a: Seq<u8>| #[trigger] created.dom().contains(a) implies hash_fits(
        created[a].content_hash,
    ) by {
        if address != Some(a) {
            assert(store.dom().contains(a));
        }
    }
    let kept = seal_store(store, address, signed, note_id);
    assert forall|a: Seq<u8>| #[trigger] kept.dom().contains(a) implies hash_fits(
        kept[a].content_hash,
    ) by {
        assert(store.dom().contains(a));
    }
}

/// A note whose content hash fits has room in the space set aside for one
/// note, sealed or not.
pub proof fn fitting_note_has_room(note: NoteRecord)
    requires
        hash_fits(note.content_hash),
    ensures
        stored_bytes(note) <= NOTE_SPACE,
        stored_bytes(sealed(note)) == stored_bytes(note),
{
}

/// Whether `after` is `before` grown older: the same note with the same
/// owner, number, content hash and time, and permanent if it was before.
pub open spec fn succeeds(before: NoteRecord, after: NoteRecord) -> bool {
    &&& after.owner == before.owner
    &&& after.note_id == before.note_id
    &&& after.content_hash == before.content_hash
    &&& after.timestamp == before.timestamp
    &&& before.is_permanent ==> after.is_permanent
}

/// No creation, whatever its outcome, removes or changes a note that exists.
pub proof fn create_keeps_notes(
    store: Map<Seq<u8>, NoteRecord>,
    address: Option<Seq<u8>>,
    signed: bool,
    owner: Seq<u8>,
    note_id: u64,
    content_hash: Seq<char>,
    timestamp: i64,
    other: Seq<u8>,
)
    requires
        store.dom().contains(other),
    ensures
        create_store(store, address, signed, owner, note_id, content_hash, timestamp).dom().contains(
            other,
        ),
        create_store(store, address, signed, owner, note_id, content_hash, timestamp)[other]
            == store[other],
{
}

/// No seal, whatever its outcome, removes a note or changes its owner, its
/// number, its content hash or its time, and none makes a permanent note
/// anything else again.
pub proof fn seal_keeps_notes(
    store: Map<Seq<u8>, NoteRecord>,
    address: Option<Seq<u8>>,
    signed: bool,
    note_id: u64,
    other: Seq<u8>,
)
    requires
        store.dom().contains(other),
    ensures
        seal_store(store, address, signed, note_id).dom().contains(other),
        succeeds(store[other], seal_store(store, address, signed, note_id)[other]),
        address != Some(other) ==> seal_store(store, address, signed, note_id)[other]
            == store[other],
{
}

} // verus!
