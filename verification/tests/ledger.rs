use std::str::FromStr;

use anchor_lang::prelude::Pubkey;
use note_ledger::{
    derive_note_address, initialize_note, set_permanent, ErrorCode, InitializeNote, Ledger,
    NoteAccount, SetPermanent, Signer,
};

fn program() -> [u8; 32] {
    Pubkey::from_str("9qTuVAyYyTuoLTWSRLXmrbQycKKbAMCjwFhUV9LPSMdR").unwrap().to_bytes()
}

fn key(fill: u8) -> [u8; 32] {
    [fill; 32]
}

fn creator(fill: u8) -> InitializeNote {
    InitializeNote { user: Signer { key: key(fill), is_signer: true } }
}

fn sealer(fill: u8) -> SetPermanent {
    SetPermanent { user: Signer { key: key(fill), is_signer: true } }
}

fn note_at(ledger: &Ledger, owner: &[u8; 32], note_id: u64) -> Option<NoteAccount> {
    let address = derive_note_address(owner, note_id, &ledger.program_id()).unwrap();
    let found = ledger.lookup(&address).cloned();
    assert_eq!(ledger.find(owner, note_id).cloned(), found);
    found
}

#[test]
fn create_then_seal() {
    let mut ledger = Ledger::new(program());
    let outcome =
        initialize_note(&mut ledger, &creator(1), 42, "ar://abc123".to_string(), 1700000000);
    assert_eq!(outcome, Ok(()));
    let created = note_at(&ledger, &key(1), 42).unwrap();
    assert_eq!(
        created,
        NoteAccount {
            owner: key(1),
            note_id: 42,
            arweave_hash: "ar://abc123".to_string(),
            timestamp: 1700000000,
            is_permanent: false,
        }
    );
    assert_eq!(set_permanent(&mut ledger, &sealer(1), 42), Ok(()));
    let sealed = note_at(&ledger, &key(1), 42).unwrap();
    assert_eq!(
        sealed,
        NoteAccount {
            owner: key(1),
            note_id: 42,
            arweave_hash: "ar://abc123".to_string(),
            timestamp: 1700000000,
            is_permanent: true,
        }
    );
}

#[test]
fn create_twice_collides() {
    let mut ledger = Ledger::new(program());
    assert_eq!(initialize_note(&mut ledger, &creator(1), 42, "ar://abc123".to_string(), 1), Ok(()));
    assert_eq!(
        initialize_note(&mut ledger, &creator(1), 42, "ar://other".to_string(), 2),
        Err(ErrorCode::AddressCollision)
    );
    let kept = note_at(&ledger, &key(1), 42).unwrap();
    assert_eq!(kept.arweave_hash, "ar://abc123");
    assert_eq!(kept.timestamp, 1);
    assert!(!kept.is_permanent);
}

#[test]
fn seal_without_create_is_not_found() {
    let mut ledger = Ledger::new(program());
    assert_eq!(set_permanent(&mut ledger, &sealer(1), 99), Err(ErrorCode::RecordNotFound));
    assert_eq!(note_at(&ledger, &key(1), 99), None);
}

#[test]
fn seal_of_another_number_is_not_found() {
    let mut ledger = Ledger::new(program());
    assert_eq!(initialize_note(&mut ledger, &creator(1), 42, "h".to_string(), 0), Ok(()));
    assert_eq!(set_permanent(&mut ledger, &sealer(1), 43), Err(ErrorCode::RecordNotFound));
    assert_eq!(set_permanent(&mut ledger, &sealer(2), 42), Err(ErrorCode::RecordNotFound));
    assert!(!note_at(&ledger, &key(1), 42).unwrap().is_permanent);
}

#[test]
fn seal_twice_changes_nothing_more() {
    let mut ledger = Ledger::new(program());
    assert_eq!(initialize_note(&mut ledger, &creator(3), 7, "ar://x".to_string(), -5), Ok(()));
    assert_eq!(set_permanent(&mut ledger, &sealer(3), 7), Ok(()));
    let once = note_at(&ledger, &key(3), 7).unwrap();
    assert_eq!(set_permanent(&mut ledger, &sealer(3), 7), Ok(()));
    let twice = note_at(&ledger, &key(3), 7).unwrap();
    assert!(twice.is_permanent);
    assert_eq!(once, twice);
    assert_eq!(twice.timestamp, -5);
}

#[test]
fn unsigned_requests_are_unauthorized() {
    let mut ledger = Ledger::new(program());
    let unsigned = InitializeNote { user: Signer { key: key(1), is_signer: false } };
    assert_eq!(
        initialize_note(&mut ledger, &unsigned, 1, "h".to_string(), 0),
        Err(ErrorCode::Unauthorized)
    );
    assert_eq!(note_at(&ledger, &key(1), 1), None);
    assert_eq!(initialize_note(&mut ledger, &creator(1), 1, "h".to_string(), 0), Ok(()));
    let unsigned = SetPermanent { user: Signer { key: key(1), is_signer: false } };
    assert_eq!(set_permanent(&mut ledger, &unsigned, 1), Err(ErrorCode::Unauthorized));
    assert!(!note_at(&ledger, &key(1), 1).unwrap().is_permanent);
}

#[test]
fn content_hash_of_64_bytes_fits_and_65_do_not() {
    let mut ledger = Ledger::new(program());
    assert_eq!(note_ledger::MAX_HASH_BYTES, 64);
    assert_eq!(initialize_note(&mut ledger, &creator(1), 1, "a".repeat(64), 0), Ok(()));
    assert_eq!(
        initialize_note(&mut ledger, &creator(1), 2, "a".repeat(65), 0),
        Err(ErrorCode::ValueTooLong)
    );
    assert_eq!(note_at(&ledger, &key(1), 2), None);
    assert_eq!(initialize_note(&mut ledger, &creator(1), 3, String::new(), 0), Ok(()));
}

#[test]
fn content_hash_is_measured_in_bytes() {
    let mut ledger = Ledger::new(program());
    let two_bytes_each = "\u{e9}".repeat(33);
    assert_eq!(two_bytes_each.chars().count(), 33);
    assert!(!note_ledger::account::content_hash_fits(&two_bytes_each));
    assert_eq!(
        initialize_note(&mut ledger, &creator(1), 1, two_bytes_each, 0),
        Err(ErrorCode::ValueTooLong)
    );
    let fits = "\u{e9}".repeat(32);
    assert!(note_ledger::account::content_hash_fits(&fits));
    assert_eq!(initialize_note(&mut ledger, &creator(1), 1, fits, 0), Ok(()));
}

#[test]
fn collision_comes_before_length() {
    let mut ledger = Ledger::new(program());
    assert_eq!(initialize_note(&mut ledger, &creator(1), 1, "h".to_string(), 0), Ok(()));
    assert_eq!(
        initialize_note(&mut ledger, &creator(1), 1, "a".repeat(100), 0),
        Err(ErrorCode::AddressCollision)
    );
}

#[test]
fn space_of_a_note() {
    assert_eq!(note_ledger::account::HEADER_BYTES, 8);
    assert_eq!(note_ledger::account::KEY_BYTES, 32);
    assert_eq!(note_ledger::account::LENGTH_PREFIX_BYTES, 4);
    assert_eq!(note_ledger::account::NOTE_SPACE, 125);
}

#[test]
fn address_is_the_program_derived_one() {
    let owner = key(9);
    let number: u64 = 42;
    let found = derive_note_address(&owner, number, &program()).unwrap();
    let seeds: [&[u8]; 3] = [b"note", &owner, &number.to_le_bytes()];
    let (expected, _) = Pubkey::find_program_address(&seeds, &Pubkey::new_from_array(program()));
    assert_eq!(found, expected.to_bytes());
    assert_ne!(found, owner);
    assert_ne!(found, program());
}

#[test]
fn address_depends_on_owner_number_and_program() {
    let base = derive_note_address(&key(1), 42, &program()).unwrap();
    assert_eq!(derive_note_address(&key(1), 42, &program()).unwrap(), base);
    assert_ne!(derive_note_address(&key(2), 42, &program()).unwrap(), base);
    assert_ne!(derive_note_address(&key(1), 43, &program()).unwrap(), base);
    assert_ne!(derive_note_address(&key(1), 42, &key(7)).unwrap(), base);
    assert_ne!(derive_note_address(&key(1), 42 << 8, &program()).unwrap(), base);
}

#[test]
fn notes_of_different_owners_do_not_meet() {
    let mut ledger = Ledger::new(program());
    assert_eq!(initialize_note(&mut ledger, &creator(1), 42, "one".to_string(), 10), Ok(()));
    assert_eq!(initialize_note(&mut ledger, &creator(2), 42, "two".to_string(), 20), Ok(()));
    assert_eq!(initialize_note(&mut ledger, &creator(1), 43, "three".to_string(), 30), Ok(()));
    assert_eq!(set_permanent(&mut ledger, &sealer(2), 42), Ok(()));
    let first = note_at(&ledger, &key(1), 42).unwrap();
    let second = note_at(&ledger, &key(2), 42).unwrap();
    let third = note_at(&ledger, &key(1), 43).unwrap();
    assert_eq!((first.arweave_hash.as_str(), first.is_permanent), ("one", false));
    assert_eq!((second.arweave_hash.as_str(), second.is_permanent), ("two", true));
    assert_eq!((third.arweave_hash.as_str(), third.is_permanent), ("three", false));
    assert_eq!(second.owner, key(2));
}

#[test]
fn operations_at_a_given_address() {
    let mut ledger = Ledger::new(key(0));
    let here = key(100);
    let there = key(101);
    assert_eq!(ledger.lookup(&here), None);
    assert_eq!(ledger.create_at(Some(here), &creator(1), 5, "h".to_string(), 1), Ok(()));
    assert_eq!(
        ledger.create_at(Some(here), &creator(2), 6, "g".to_string(), 2),
        Err(ErrorCode::AddressCollision)
    );
    assert_eq!(ledger.lookup(&here).unwrap().owner, key(1));
    assert_eq!(ledger.lookup(&there), None);
    assert_eq!(ledger.seal_at(Some(there), &sealer(1), 5), Err(ErrorCode::RecordNotFound));
    assert_eq!(ledger.seal_at(Some(here), &sealer(1), 6), Err(ErrorCode::InvalidNoteId));
    assert!(!ledger.lookup(&here).unwrap().is_permanent);
    assert_eq!(ledger.seal_at(Some(here), &sealer(2), 5), Ok(()));
    assert!(ledger.lookup(&here).unwrap().is_permanent);
    assert_eq!(ledger.lookup(&here).unwrap().owner, key(1));
}

#[test]
fn without_an_address_nothing_happens() {
    let mut ledger = Ledger::new(key(0));
    assert_eq!(
        ledger.create_at(None, &creator(1), 5, "h".to_string(), 1),
        Err(ErrorCode::AddressUnderivable)
    );
    assert_eq!(ledger.seal_at(None, &sealer(1), 5), Err(ErrorCode::AddressUnderivable));
    let unsigned = SetPermanent { user: Signer { key: key(1), is_signer: false } };
    assert_eq!(ledger.seal_at(None, &unsigned, 5), Err(ErrorCode::Unauthorized));
}

#[test]
fn a_note_alone() {
    let mut note = NoteAccount::new(key(4), 11, "ar://n".to_string(), 1234);
    assert_eq!(
        note,
        NoteAccount {
            owner: key(4),
            note_id: 11,
            arweave_hash: "ar://n".to_string(),
            timestamp: 1234,
            is_permanent: false,
        }
    );
    assert_eq!(note.seal(12), Err(ErrorCode::InvalidNoteId));
    assert!(!note.is_permanent);
    assert_eq!(note.seal(11), Ok(()));
    assert!(note.is_permanent);
    assert_eq!(note.seal(11), Ok(()));
    assert!(note.is_permanent);
    assert_eq!(note.seal(12), Err(ErrorCode::InvalidNoteId));
    assert!(note.is_permanent);
    let copy = note.clone();
    assert_eq!(copy, note);
}

#[test]
fn ledger_keeps_its_program() {
    let mut ledger = Ledger::new(program());
    assert_eq!(ledger.program_id(), program());
    assert_eq!(initialize_note(&mut ledger, &creator(1), 1, "h".to_string(), 0), Ok(()));
    assert_eq!(ledger.program_id(), program());
}

#[test]
fn addresses_that_begin_alike_are_kept_apart() {
    let mut ledger = Ledger::new(key(0));
    let first = key(100);
    let mut second = key(100);
    second[31] = 1;
    let mut third = key(100);
    third[8] = 1;
    assert_eq!(ledger.create_at(Some(first), &creator(1), 1, "one".to_string(), 1), Ok(()));
    assert_eq!(ledger.create_at(Some(second), &creator(2), 2, "two".to_string(), 2), Ok(()));
    assert_eq!(ledger.lookup(&third), None);
    assert_eq!(ledger.seal_at(Some(third), &sealer(1), 1), Err(ErrorCode::RecordNotFound));
    assert_eq!(ledger.seal_at(Some(second), &sealer(2), 2), Ok(()));
    assert_eq!(ledger.lookup(&first).unwrap().arweave_hash, "one");
    assert!(!ledger.lookup(&first).unwrap().is_permanent);
    assert_eq!(ledger.lookup(&second).unwrap().arweave_hash, "two");
    assert!(ledger.lookup(&second).unwrap().is_permanent);
    assert_eq!(
        ledger.create_at(Some(first), &creator(3), 3, "three".to_string(), 3),
        Err(ErrorCode::AddressCollision)
    );
    assert_eq!(ledger.lookup(&first).unwrap().note_id, 1);
}

#[test]
fn many_notes_of_one_owner() {
    let mut ledger = Ledger::new(program());
    let mut number: u64 = 0;
    while number < 50 {
        let hash = format!("ar://{}", number);
        assert_eq!(initialize_note(&mut ledger, &creator(5), number, hash, 0), Ok(()));
        number += 1;
    }
    assert_eq!(set_permanent(&mut ledger, &sealer(5), 17), Ok(()));
    let mut number: u64 = 0;
    while number < 50 {
        let note = note_at(&ledger, &key(5), number).unwrap();
        assert_eq!(note.note_id, number);
        assert_eq!(note.arweave_hash, format!("ar://{}", number));
        assert_eq!(note.is_permanent, number == 17);
        number += 1;
    }
    assert_eq!(note_at(&ledger, &key(5), 50), None);
}

#[test]
fn every_error_has_its_message() {
    assert_eq!(ErrorCode::InvalidNoteId.message(), "Invalid note ID");
    assert_eq!(ErrorCode::AddressCollision.message(), "A note already exists at this address");
    assert_eq!(ErrorCode::Unauthorized.message(), "The request is not signed");
    assert_eq!(ErrorCode::RecordNotFound.message(), "No note exists at this address");
    assert_eq!(ErrorCode::ValueTooLong.message(), "The content hash is too long");
    assert_eq!(ErrorCode::AddressUnderivable.message(), "No address can be derived");
}
