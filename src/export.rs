//! Replay of blocks into a tiered store: the record each block is stored as, and
//! the lock slots that its UTXO transactions set.
use vstd::prelude::*;

use crate::codec::copy_bytes;
use crate::error::RecoveryError;
use crate::proto::{block_entries, block_entries_of, entry_view, TxEntry};

verus! {

/// The lock slots that a block's transactions set, in order: each UTXO transaction
/// sets its lock id's slot to its own hash. `None` when an entry is malformed.
pub open spec fn lock_updates_of(e: Seq<Option<Option<(u64, Seq<u8>)>>>) -> Option<
    Seq<(u64, Seq<u8>)>,
>
    decreases e.len(),
{
    if e.len() == 0 {
        Some(seq![])
    } else {
        match lock_updates_of(e.drop_last()) {
            None => None,
            Some(p) => match e.last() {
                None => None,
                Some(None) => Some(p),
                Some(Some(u)) => Some(p.push(u)),
            },
        }
    }
}

/// The view of a list of lock updates.
pub open spec fn updates_view(u: Seq<(u64, Vec<u8>)>) -> Seq<(u64, Seq<u8>)> {
    u.map_values(|x: (u64, Vec<u8>)| (x.0, x.1@))
}

/// The lock slots that decoded block entries set (see `lock_updates_of`); a
/// malformed entry is an `IOError`.
pub fn lock_updates_from_entries(entries: &Vec<TxEntry>) -> (r: Result<
    Vec<(u64, Vec<u8>)>,
    RecoveryError,
>)
    ensures
        ({
            let e = entries@.map_values(|x: TxEntry| entry_view(x));
            match lock_updates_of(e) {
                Some(u) => r matches Ok(v) && updates_view(v@) == u,
                None => r == Err::<Vec<(u64, Vec<u8>)>, RecoveryError>(RecoveryError::IOError),
            }
        }),
{
    let ghost e = entries@.map_values(|x: TxEntry| entry_view(x));
    let mut r: Vec<(u64, Vec<u8>)> = Vec::new();
    let mut i: usize = 0;
    while i < entries.len()
        invariant
            i <= entries@.len(),
            e == entries@.map_values(|x: TxEntry| entry_view(x)),
            lock_updates_of(e.subrange(0, i as int)) == Some(updates_view(r@)),
        decreases entries@.len() - i,
    {
        let ghost before = r@;
        assert(e.subrange(0, i + 1).drop_last() =~= e.subrange(0, i as int));
        match &entries[i] {
            None => {
                assert(lock_updates_of(e.subrange(0, i + 1)) is None);
                assert(lock_updates_of(e) is None) by {
                    lemma_malformed_prefix(e, i + 1);
                }
                return Err(RecoveryError::IOError);
            },
            Some(None) => {},
            Some(Some((lock_id, hash))) => {
                r.push((*lock_id, copy_bytes(hash.as_slice())));
                assert(updates_view(r@) =~= updates_view(before).push((*lock_id, hash@)));
            },
        }
        i += 1;
    }
    assert(e.subrange(0, entries@.len() as int) =~= e);
    Ok(r)
}

/// A malformed prefix makes the whole list malformed.
proof fn lemma_malformed_prefix(e: Seq<Option<Option<(u64, Seq<u8>)>>>, n: int)
    requires
        0 <= n <= e.len(),
        lock_updates_of(e.subrange(0, n)) is None,
    ensures
        lock_updates_of(e) is None,
    decreases e.len() - n,
{
    if n < e.len() {
        assert(e.subrange(0, n + 1).drop_last() =~= e.subrange(0, n));
        lemma_malformed_prefix(e, n + 1);
    } else {
        assert(e.subrange(0, n) =~= e);
    }
}

/// The lock slots that an encoded full block sets (see `lock_updates_of`); a block
/// that does not decode, or a malformed entry, is an `IOError`.
pub fn lock_updates(block: &[u8]) -> (r: Result<Vec<(u64, Vec<u8>)>, RecoveryError>)
    ensures
        match block_entries_of(block@) {
            Some(e) => match lock_updates_of(e) {
                Some(u) => r matches Ok(v) && updates_view(v@) == u,
                None => r == Err::<Vec<(u64, Vec<u8>)>, RecoveryError>(RecoveryError::IOError),
            },
            None => r == Err::<Vec<(u64, Vec<u8>)>, RecoveryError>(RecoveryError::IOError),
        },
{
    match block_entries(block) {
        Some(entries) => lock_updates_from_entries(&entries),
        None => Err(RecoveryError::IOError),
    }
}

/// The record a tiered store keeps for a block: the block's hash, then its bytes.
pub fn block_record(hash: &[u8], block: &[u8]) -> (r: Vec<u8>)
    ensures
        r@ == hash@ + block@,
{
    let mut r = copy_bytes(hash);
    let mut i: usize = 0;
    while i < block.len()
        invariant
            i <= block@.len(),
            r@ == hash@ + block@.subrange(0, i as int),
        decreases block@.len() - i,
    {
        r.push(block[i]);
        i += 1;
        assert(block@.subrange(0, i as int) =~= block@.subrange(0, i - 1) + seq![block@[i - 1]]);
    }
    assert(block@.subrange(0, block@.len() as int) =~= block@);
    r
}

} // verus!
