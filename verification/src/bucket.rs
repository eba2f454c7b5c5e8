//! A bucket: the few notes whose addresses begin alike, kept in a row.

use vstd::prelude::*;
use crate::account::{hash_fits, NoteAccount, NoteRecord};

verus! {

/// One note and the address it stands at.
pub(crate) struct Entry {
    pub(crate) address: [u8; 32],
    pub(crate) account: NoteAccount,
}

/// The number under which the ledger files an address: its first eight
/// bytes, lowest first.
pub(crate) open spec fn bucket_key(address: Seq<u8>) -> u64 {
    (address[0] as int + address[1] as int * 0x100 + address[2] as int * 0x1_0000 + address[3] as int
        * 0x100_0000 + address[4] as int * 0x1_0000_0000 + address[5] as int * 0x100_0000_0000
        + address[6] as int * 0x1_0000_0000_0000 + address[7] as int * 0x100_0000_0000_0000) as u64
}

/// Computes the number under which the ledger files `address`.
pub(crate) fn bucket_of(address: &[u8; 32]) -> (key: u64)
    ensures
        key == bucket_key(address@),
{
    let low: u64 = address[0] as u64 + address[1] as u64 * 0x100 + address[2] as u64 * 0x1_0000
        + address[3] as u64 * 0x100_0000;
    let high: u64 = address[4] as u64 * 0x1_0000_0000 + address[5] as u64 * 0x100_0000_0000
        + address[6] as u64 * 0x1_0000_0000_0000 + address[7] as u64 * 0x100_0000_0000_0000;
    low + high
}

/// Tells whether two addresses are the same.
pub(crate) fn same_bytes(a: &[u8; 32], b: &[u8; 32]) -> (same: bool)
    ensures
        same == (a@ == b@),
{
    let mut i: usize = 0;
    while i < 32
        invariant
            i <= 32,
            forall|k: int| 0 <= k < i ==> a@[k] == b@[k],
        decreases 32 - i,
    {
        if a[i] != b[i] {
            return false;
        }
        i += 1;
    }
    assert(a@ =~= b@);
    true
}

/// Whether some entry of the row stands at `address`.
pub(crate) open spec fn holds(entries: Seq<Entry>, address: Seq<u8>) -> bool {
    exists|i: int| 0 <= i < entries.len() && #[trigger] entries[i].address@ == address
}

/// The place of an entry of the row that stands at `address`.
pub(crate) open spec fn place(entries: Seq<Entry>, address: Seq<u8>) -> int {
    choose|i: int| 0 <= i < entries.len() && #[trigger] entries[i].address@ == address
}

/// Whether no two entries of the row share an address.
pub(crate) open spec fn distinct(entries: Seq<Entry>) -> bool {
    forall|i: int, j: int|
        0 <= i < j < entries.len() ==> #[trigger] entries[i].address@ != #[trigger] entries[j].address@
}

/// Whether the content hash of every entry of the row fits the space of a
/// record.
pub(crate) open spec fn bounded(entries: Seq<Entry>) -> bool {
    forall|i: int| 0 <= i < entries.len() ==> hash_fits(#[trigger] entries[i].account@.content_hash)
}

/// What the ledger keeps true of each row.
pub(crate) open spec fn sound(entries: Seq<Entry>) -> bool {
    distinct(entries) && bounded(entries)
}

/// The notes of the row by address.
pub(crate) open spec fn shown(entries: Seq<Entry>) -> Map<Seq<u8>, NoteRecord> {
    Map::new(
        |address: Seq<u8>| holds(entries, address),
        |address: Seq<u8>| entries[place(entries, address)].account@,
    )
}

/// In a row without repeated addresses the entry at place `i` is the one
/// shown at its address.
pub(crate) proof fn entry_is_shown(entries: Seq<Entry>, i: int)
    requires
        distinct(entries),
        0 <= i < entries.len(),
    ensures
        shown(entries).dom().contains(entries[i].address@),
        shown(entries)[entries[i].address@] == entries[i].account@,
{
    let address = entries[i].address@;
    assert(entries[i].address@ == address);
    let p = place(entries, address);
    assert(0 <= p < entries.len() && entries[p].address@ == address);
    if p < i {
        assert(entries[p].address@ != entries[i].address@);
    } else if i < p {
        assert(entries[i].address@ != entries[p].address@);
    }
}

/// A row with one more entry, at an address that was free, shows one more
/// note and the others as before.
pub(crate) proof fn shown_after_push(entries: Seq<Entry>, entry: Entry)
    requires
        distinct(entries),
        !shown(entries).dom().contains(entry.address@),
    ensures
        distinct(entries.push(entry)),
        shown(entries.push(entry)) == shown(entries).insert(entry.address@, entry.account@),
{
    let longer = entries.push(entry);
    let last = entries.len() as int;
    assert forall|i: int, j: int| 0 <= i < j < longer.len() implies #[trigger] longer[i].address@
        != #[trigger] longer[j].address@ by {
        if j == last {
            assert(entries[i].address@ == longer[i].address@);
        } else {
            assert(entries[i].address@ != entries[j].address@);
        }
    }
    let wanted = shown(entries).insert(entry.address@, entry.account@);
    assert forall|a: Seq<u8>| #[trigger] wanted.dom().contains(a) implies shown(longer).dom().contains(
        a,
    ) && shown(longer)[a] == wanted[a] by {
        if a == entry.address@ {
            entry_is_shown(longer, last);
        } else {
            let p = place(entries, a);
            entry_is_shown(entries, p);
            entry_is_shown(longer, p);
        }
    }
    assert forall|a: Seq<u8>| #[trigger] shown(longer).dom().contains(a) implies wanted.dom().contains(
        a,
    ) by {
        let p = place(longer, a);
        if p != last {
            entry_is_shown(entries, p);
        }
    }
    assert(shown(longer) =~= wanted);
}

/// A row in which the note at place `i` has changed, and no address, shows
/// the changed note at its address and the others as before.
pub(crate) proof fn shown_after_change(before: Seq<Entry>, after: Seq<Entry>, i: int)
    requires
        distinct(before),
        0 <= i < before.len(),
        after.len() == before.len(),
        forall|k: int| 0 <= k < before.len() ==> #[trigger] after[k].address@ == before[k].address@,
        forall|k: int| 0 <= k < before.len() && k != i ==> #[trigger] after[k].account@ == before[k].account@,
    ensures
        distinct(after),
        shown(after) == shown(before).insert(before[i].address@, after[i].account@),
{
    assert forall|k: int, j: int| 0 <= k < j < after.len() implies #[trigger] after[k].address@
        != #[trigger] after[j].address@ by {
        assert(before[k].address@ != before[j].address@);
    }
    let wanted = shown(before).insert(before[i].address@, after[i].account@);
    assert forall|a: Seq<u8>| #[trigger] wanted.dom().contains(a) implies shown(after).dom().contains(
        a,
    ) && shown(after)[a] == wanted[a] by {
        let p = if a == before[i].address@ {
            i
        } else {
            place(before, a)
        };
        entry_is_shown(before, p);
        entry_is_shown(after, p);
    }
    assert forall|a: Seq<u8>| #[trigger] shown(after).dom().contains(a) implies wanted.dom().contains(
        a,
    ) by {
        entry_is_shown(before, place(after, a));
    }
    assert(shown(after) =~= wanted);
}

/// Finds the place of the entry at `address`.
pub(crate) fn position(entries: &Vec<Entry>, address: &[u8; 32]) -> (found: Option<usize>)
    ensures
        match found {
            Some(i) => i < entries@.len() && entries@[i as int].address@ == address@,
            None => !shown(entries@).dom().contains(address@),
        },
{
    let mut i: usize = 0;
    while i < entries.len()
        invariant
            i <= entries@.len(),
            forall|k: int| 0 <= k < i ==> #[trigger] entries@[k].address@ != address@,
        decreases entries@.len() - i,
    {
        if same_bytes(&entries[i].address, address) {
            return Some(i);
        }
        i += 1;
    }
    None
}

} // verus!
