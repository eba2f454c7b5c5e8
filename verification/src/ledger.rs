//! The ledger: the notes that exist, each at its address.

use std::collections::HashMap;
use vstd::prelude::*;
use vstd::std_specs::hash::*;
use crate::account::{content_hash_fits, hash_fits, NoteAccount, NoteRecord};
use crate::address::{address_view, derive_note_address, note_address};
use crate::bucket::{
    bucket_key, bucket_of, entry_is_shown, place, position, shown, shown_after_change,
    shown_after_push, sound, Entry,
};
use crate::context::{InitializeNote, SetPermanent};
use crate::error::ErrorCode;
use crate::model::{all_fit, create_result, create_store, seal_result, seal_store};

verus! {

/// The notes of one program, filed by address. No two of them share an
/// address.
pub struct Ledger {
    program_id: [u8; 32],
    buckets: HashMap<u64, Vec<Entry>>,
}

impl Ledger {
    /// The row of entries filed under `key`.
    spec fn row(&self, key: u64) -> Seq<Entry> {
        if self.buckets@.dom().contains(key) {
            self.buckets@[key]@
        } else {
            Seq::empty()
        }
    }

    /// The ledger's invariant: no two entries share an address, and every
    /// content hash fits the space of a record.
    pub closed spec fn wf(&self) -> bool {
        forall|key: u64| sound(#[trigger] self.row(key))
    }

    /// The program whose notes these are.
    pub closed spec fn program(&self) -> Seq<u8> {
        self.program_id@
    }

    /// The notes by address.
    pub closed spec fn view(&self) -> Map<Seq<u8>, NoteRecord> {
        Map::new(
            |address: Seq<u8>| shown(self.row(bucket_key(address))).dom().contains(address),
            |address: Seq<u8>| shown(self.row(bucket_key(address)))[address],
        )
    }

    /// An empty ledger for the program `program_id`.
    pub fn new(program_id: [u8; 32]) -> (ledger: Ledger)
        ensures
            ledger.wf(),
            ledger@ == Map::<Seq<u8>, NoteRecord>::empty(),
            ledger.program() == program_id@,
    {
        broadcast use group_hash_axioms;

        let ledger = Ledger { program_id, buckets: HashMap::new() };
        assert(ledger@ =~= Map::<Seq<u8>, NoteRecord>::empty());
        ledger
    }

    /// The key of the program whose notes these are.
    pub fn program_id(&self) -> (id: [u8; 32])
        ensures
            id@ == self.program(),
    {
        self.program_id
    }

    /// The note at `address`, if there is one.
    pub fn lookup(&self, address: &[u8; 32]) -> (found: Option<&NoteAccount>)
        requires
            self.wf(),
        ensures
            match found {
                Some(account) => self@.dom().contains(address@) && account@ == self@[address@]
                    && hash_fits(account@.content_hash),
                None => !self@.dom().contains(address@),
            },
    {
        broadcast use group_hash_axioms;

        let key = bucket_of(address);
        let bucket = match self.buckets.get(&key) {
            Some(bucket) => bucket,
            None => {
                return None;
            },
        };
        assert(bucket@ == self.row(key));
        match position(bucket, address) {
            Some(i) => {
                proof {
                    entry_is_shown(bucket@, i as int);
                }
                Some(&bucket[i].account)
            },
            None => None,
        }
    }

    /// The note that `owner` numbered `note_id`, if there is one: the note at
    /// the address derived from the two.
    pub fn find(&self, owner: &[u8; 32], note_id: u64) -> (found: Option<&NoteAccount>)
        requires
            self.wf(),
        ensures
            match (found, note_address(owner@, note_id, self.program())) {
                (Some(account), Some(address)) => self@.dom().contains(address) && account@
                    == self@[address] && hash_fits(account@.content_hash),
                (Some(_), None) => false,
                (None, Some(address)) => !self@.dom().contains(address),
                (None, None) => true,
            },
    {
        match derive_note_address(owner, note_id, &self.program_id) {
            Some(address) => self.lookup(&address),
            None => None,
        }
    }

    /// In a ledger that keeps its invariant every content hash fits the space
    /// of a record.
    pub proof fn notes_fit(&self)
        requires
            self.wf(),
        ensures
            all_fit(self@),
    {
        assert forall|a: Seq<u8>| #[trigger] self@.dom().contains(a) implies hash_fits(
            self@[a].content_hash,
        ) by {
            let row = self.row(bucket_key(a));
            assert(sound(row));
            let p = place(row, a);
            assert(hash_fits(row[p].account@.content_hash));
        }
    }

    /// After the row under `key` has been replaced and no other, an address
    /// filed under another number shows what it did, and one filed under
    /// `key` shows what its row shows, before and after.
    proof fn rows_after(before: Ledger, after: Ledger, key: u64)
        requires
            before.wf(),
            sound(after.row(key)),
            forall|other: u64| other != key ==> #[trigger] after.row(other) == before.row(other),
        ensures
            after.wf(),
            forall|a: Seq<u8>|
                bucket_key(a) != key ==> (#[trigger] after@.dom().contains(a)
                    == before@.dom().contains(a)) && (before@.dom().contains(a) ==> after@[a]
                    == before@[a]),
            forall|a: Seq<u8>|
                bucket_key(a) == key ==> (#[trigger] after@.dom().contains(a) == shown(
                    after.row(key),
                ).dom().contains(a)) && (after@.dom().contains(a) ==> after@[a] == shown(
                    after.row(key),
                )[a]),
            forall|a: Seq<u8>|
                bucket_key(a) == key ==> (#[trigger] before@.dom().contains(a) == shown(
                    before.row(key),
                ).dom().contains(a)) && (before@.dom().contains(a) ==> before@[a] == shown(
                    before.row(key),
                )[a]),
    {
        assert forall|k: u64| sound(#[trigger] after.row(k)) by {
            if k != key {
                assert(after.row(k) == before.row(k));
            }
        }
        assert forall|a: Seq<u8>| bucket_key(a) != key implies (#[trigger] after@.dom().contains(a)
            == before@.dom().contains(a)) && (before@.dom().contains(a) ==> after@[a]
            == before@[a]) by {
            assert(after.row(bucket_key(a)) == before.row(bucket_key(a)));
        }
    }

    /// Takes the row filed under `key` out of the ledger.
    fn take_row(&mut self, key: u64) -> (row: Vec<Entry>)
        ensures
            row@ == old(self).row(key),
            final(self).program_id == old(self).program_id,
            final(self).row(key) == Seq::<Entry>::empty(),
            forall|other: u64| other != key ==> #[trigger] final(self).row(other) == old(self).row(other),
    {
        broadcast use group_hash_axioms;

        match self.buckets.remove(&key) {
            Some(row) => row,
            None => Vec::new(),
        }
    }

    /// Files `row` under `key`, from where the row was taken out before.
    fn put_row(&mut self, key: u64, row: Vec<Entry>)
        requires
            old(self).row(key) == Seq::<Entry>::empty(),
        ensures
            final(self).row(key) == row@,
            final(self).program_id == old(self).program_id,
            forall|other: u64| other != key ==> #[trigger] final(self).row(other) == old(self).row(other),
    {
        broadcast use group_hash_axioms;

        if row.len() > 0 {
            self.buckets.insert(key, row);
        } else {
            assert(row@ =~= Seq::<Entry>::empty());
        }
    }

    /// Creates a note at `address`, which is what the derivation gave for the
    /// creator's key and `note_id`. The note belongs to the creator's key.
    pub fn create_at(
        &mut self,
        address: Option<[u8; 32]>,
        ctx: &InitializeNote,
        note_id: u64,
        arweave_hash: String,
        timestamp: i64,
    ) -> (outcome: Result<(), ErrorCode>)
        requires
            old(self).wf(),
        ensures
            final(self).wf(),
            final(self).program() == old(self).program(),
            outcome == create_result(
                old(self)@,
                address_view(address),
                ctx.user.is_signer,
                arweave_hash@,
            ),
            final(self)@ == create_store(
                old(self)@,
                address_view(address),
                ctx.user.is_signer,
                ctx.user.key@,
                note_id,
                arweave_hash@,
                timestamp,
            ),
    {
        if !ctx.user.is_signer {
            return Err(ErrorCode::Unauthorized);
        }
        let target = match address {
            Some(target) => target,
            None => {
                return Err(ErrorCode::AddressUnderivable);
            },
        };
        let ghost before = *self;
        let key = bucket_of(&target);
        let mut row = self.take_row(key);
        let taken = position(&row, &target);
        let outcome = if taken.is_some() {
            proof {
                entry_is_shown(row@, taken->Some_0 as int);
            }
            Err(ErrorCode::AddressCollision)
        } else if !content_hash_fits(&arweave_hash) {
            Err(ErrorCode::ValueTooLong)
        } else {
            let entry = Entry {
                address: target,
                account: NoteAccount::new(ctx.user.key, note_id, arweave_hash, timestamp),
            };
            proof {
                shown_after_push(row@, entry);
            }
            row.push(entry);
            Ok(())
        };
        self.put_row(key, row);
        proof {
            Self::rows_after(before, *self, key);
            assert(self@ =~= create_store(
                before@,
                address_view(address),
                ctx.user.is_signer,
                ctx.user.key@,
                note_id,
                arweave_hash@,
                timestamp,
            ));
        }
        outcome
    }

    /// Seals the note at `address`, which is what the derivation gave for the
    /// requester's key and `note_id`. Any requester that has signed may seal:
    /// its key is not held against the note's owner.
    pub fn seal_at(&mut self, address: Option<[u8; 32]>, ctx: &SetPermanent, note_id: u64) -> (outcome:
        Result<(), ErrorCode>)
        requires
            old(self).wf(),
        ensures
            final(self).wf(),
            final(self).program() == old(self).program(),
            outcome == seal_result(old(self)@, address_view(address), ctx.user.is_signer, note_id),
            final(self)@ == seal_store(
                old(self)@,
                address_view(address),
                ctx.user.is_signer,
                note_id,
            ),
    {
        if !ctx.user.is_signer {
            return Err(ErrorCode::Unauthorized);
        }
        let target = match address {
            Some(target) => target,
            None => {
                return Err(ErrorCode::AddressUnderivable);
            },
        };
        let ghost before = *self;
        let key = bucket_of(&target);
        let mut bucket = self.take_row(key);
        let ghost row = bucket@;
        let outcome = match position(&bucket, &target) {
            Some(i) => {
                proof {
                    entry_is_shown(row, i as int);
                }
                let sealing = bucket[i].account.seal(note_id);
                proof {
                    if sealing is Ok {
                        shown_after_change(row, bucket@, i as int);
                        assert forall|k: int| 0 <= k < bucket@.len() implies hash_fits(
                            #[trigger] bucket@[k].account@.content_hash,
                        ) by {
                            assert(hash_fits(row[k].account@.content_hash));
                        }
                    } else {
                        assert(bucket@ =~= row);
                    }
                }
                sealing
            },
            None => Err(ErrorCode::RecordNotFound),
        };
        self.put_row(key, bucket);
        proof {
            Self::rows_after(before, *self, key);
            assert(self@ =~= seal_store(
                before@,
                address_view(address),
                ctx.user.is_signer,
                note_id,
            ));
        }
        outcome
    }
}

/// Creates the note that the signer of `ctx` numbers `note_id`, with the given
/// content hash and time, at the address derived from the signer's key and the
/// number. The note starts out not permanent.
pub fn initialize_note(
    ledger: &mut Ledger,
    ctx: &InitializeNote,
    note_id: u64,
    arweave_hash: String,
    timestamp: i64,
) -> (outcome: Result<(), ErrorCode>)
    requires
        old(ledger).wf(),
    ensures
        final(ledger).wf(),
        final(ledger).program() == old(ledger).program(),
        outcome == create_result(
            old(ledger)@,
            note_address(ctx.user.key@, note_id, old(ledger).program()),
            ctx.user.is_signer,
            arweave_hash@,
        ),
        final(ledger)@ == create_store(
            old(ledger)@,
            note_address(ctx.user.key@, note_id, old(ledger).program()),
            ctx.user.is_signer,
            ctx.user.key@,
            note_id,
            arweave_hash@,
            timestamp,
        ),
{
    let program = ledger.program_id();
    let address = derive_note_address(&ctx.user.key, note_id, &program);
    ledger.create_at(address, ctx, note_id, arweave_hash, timestamp)
}

/// Seals the note that the signer of `ctx` numbered `note_id`: marks it
/// permanent. Sealing a sealed note succeeds and changes nothing.
pub fn set_permanent(ledger: &mut Ledger, ctx: &SetPermanent, note_id: u64) -> (outcome: Result<
    (),
    ErrorCode,
>)
    requires
        old(ledger).wf(),
    ensures
        final(ledger).wf(),
        final(ledger).program() == old(ledger).program(),
        outcome == seal_result(
            old(ledger)@,
            note_address(ctx.user.key@, note_id, old(ledger).program()),
            ctx.user.is_signer,
            note_id,
        ),
        final(ledger)@ == seal_store(
            old(ledger)@,
            note_address(ctx.user.key@, note_id, old(ledger).program()),
            ctx.user.is_signer,
            note_id,
        ),
{
    let program = ledger.program_id();
    let address = derive_note_address(&ctx.user.key, note_id, &program);
    ledger.seal_at(address, ctx, note_id)
}

} // verus!
