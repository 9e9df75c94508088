use std::collections::HashMap;

use cita_cloud_proto::blockchain::raw_transaction::Tx;
use cita_cloud_proto::blockchain::{
    RawTransaction, UnverifiedTransaction, UnverifiedUtxoTransaction, UtxoTransaction,
};
use cloud_op::error::RecoveryError;
use cloud_op::utxo::{LockResolver, LockSchema, Resolution, Step};
use prost::Message;

fn hash(b: u8) -> Vec<u8> {
    vec![b; 32]
}

fn genesis() -> Vec<u8> {
    vec![0u8; 33]
}

fn utxo_tx(lock_id: u64, tx_hash: &[u8], pre: &[u8]) -> Vec<u8> {
    RawTransaction {
        tx: Some(Tx::UtxoTx(UnverifiedUtxoTransaction {
            transaction: Some(UtxoTransaction {
                version: 0,
                pre_tx_hash: pre.to_vec(),
                output: vec![1, 2, 3],
                lock_id,
            }),
            transaction_hash: tx_hash.to_vec(),
            witnesses: vec![],
        })),
    }
    .encode_to_vec()
}

fn normal_tx(tx_hash: &[u8]) -> Vec<u8> {
    RawTransaction {
        tx: Some(Tx::NormalTx(UnverifiedTransaction {
            transaction: None,
            transaction_hash: tx_hash.to_vec(),
            witness: None,
        })),
    }
    .encode_to_vec()
}

struct Chain {
    heights: HashMap<Vec<u8>, Vec<u8>>,
    txs: HashMap<Vec<u8>, Vec<u8>>,
}

/// Walks a slot to the end, answering each request from the chain; also counts
/// the height lookups.
fn drive(chain: &Chain, lock_id: u64, slot: &[u8], target: u64) -> (Option<Result<Resolution, RecoveryError>>, usize) {
    let Some((mut r, mut step)) = LockResolver::start(LockSchema::tiered(32), lock_id, slot, target)
    else {
        return (None, 0);
    };
    let mut lookups = 0;
    loop {
        step = match step {
            Step::LookupHeight(h) => {
                lookups += 1;
                r.on_recorded_height(chain.heights.get(&h).map(|v| v.as_slice()))
            }
            Step::LoadTx(h) => r.on_raw_tx(chain.txs.get(&h).map(|v| v.as_slice())),
            Step::Resolved(res) => return (Some(Ok(res)), lookups),
            Step::Failed(e) => return (Some(Err(e)), lookups),
        }
    }
}

/// tx_A at height 10 after genesis, then tx_B at height 20 after tx_A, both on lock 1005.
fn two_step_chain() -> Chain {
    let (a, b) = (hash(0xaa), hash(0xbb));
    let mut heights = HashMap::new();
    heights.insert(a.clone(), 10u64.to_be_bytes().to_vec());
    heights.insert(b.clone(), 20u64.to_be_bytes().to_vec());
    let mut txs = HashMap::new();
    txs.insert(a.clone(), utxo_tx(1005, &a, &genesis()));
    txs.insert(b.clone(), utxo_tx(1005, &b, &a));
    Chain { heights, txs }
}

#[test]
fn rollback_below_newest_repoints_one_hop() {
    let chain = two_step_chain();
    let (res, lookups) = drive(&chain, 1005, &hash(0xbb), 15);
    match res {
        Some(Ok(Resolution::Repoint(h))) => assert_eq!(h, hash(0xaa)),
        other => panic!("unexpected {:?}", other),
    }
    assert_eq!(lookups, 2);
}

#[test]
fn rollback_above_newest_keeps_pointer() {
    let chain = two_step_chain();
    let (res, lookups) = drive(&chain, 1005, &hash(0xbb), 25);
    assert!(matches!(res, Some(Ok(Resolution::Keep))));
    assert_eq!(lookups, 1);
}

#[test]
fn rollback_below_first_clears_slot() {
    let chain = two_step_chain();
    let (res, _) = drive(&chain, 1005, &hash(0xbb), 5);
    assert!(matches!(res, Some(Ok(Resolution::Clear))));
}

#[test]
fn rollback_at_recorded_height_keeps_pointer() {
    let chain = two_step_chain();
    let (res, _) = drive(&chain, 1005, &hash(0xbb), 20);
    assert!(matches!(res, Some(Ok(Resolution::Keep))));
    let (res, _) = drive(&chain, 1005, &hash(0xbb), 10);
    match res {
        Some(Ok(Resolution::Repoint(h))) => assert_eq!(h, hash(0xaa)),
        other => panic!("unexpected {:?}", other),
    }
}

#[test]
fn second_resolution_after_repoint_is_keep() {
    let chain = two_step_chain();
    let (res, _) = drive(&chain, 1005, &hash(0xbb), 15);
    let Some(Ok(Resolution::Repoint(h))) = res else { panic!("expected a repoint") };
    let (again, lookups) = drive(&chain, 1005, &h, 15);
    assert!(matches!(again, Some(Ok(Resolution::Keep))));
    assert_eq!(lookups, 1);
}

#[test]
fn chain_id_and_short_values_are_skipped() {
    let chain = two_step_chain();
    assert!(drive(&chain, 1001, &hash(0xbb), 15).0.is_none());
    assert!(drive(&chain, 1005, &[1, 2, 3], 15).0.is_none());
    assert!(drive(&chain, 1005, &vec![7u8; 33], 15).0.is_none());
}

#[test]
fn normal_transaction_in_chain_fails() {
    let mut chain = two_step_chain();
    chain.txs.insert(hash(0xbb), normal_tx(&hash(0xbb)));
    let (res, _) = drive(&chain, 1005, &hash(0xbb), 15);
    assert!(matches!(res, Some(Err(RecoveryError::NotUtxoTransaction))));
}

#[test]
fn missing_predecessor_fails() {
    let mut chain = two_step_chain();
    chain.heights.remove(&hash(0xaa));
    let (res, _) = drive(&chain, 1005, &hash(0xbb), 15);
    assert!(matches!(res, Some(Err(RecoveryError::IOError))));
    let mut chain = two_step_chain();
    chain.txs.remove(&hash(0xbb));
    let (res, _) = drive(&chain, 1005, &hash(0xbb), 15);
    assert!(matches!(res, Some(Err(RecoveryError::IOError))));
}

#[test]
fn body_that_is_not_a_utxo_transaction_fails() {
    let mut chain = two_step_chain();
    chain.txs.insert(hash(0xbb), vec![0xff, 0xff, 0xff]);
    let (res, _) = drive(&chain, 1005, &hash(0xbb), 15);
    assert!(matches!(res, Some(Err(RecoveryError::NotUtxoTransaction))));
    let mut chain = two_step_chain();
    chain.txs.insert(hash(0xbb), RawTransaction { tx: None }.encode_to_vec());
    let (res, _) = drive(&chain, 1005, &hash(0xbb), 15);
    assert!(matches!(res, Some(Err(RecoveryError::NotUtxoTransaction))));
}

#[test]
fn short_height_record_fails() {
    let mut chain = two_step_chain();
    chain.heights.insert(hash(0xbb), vec![0, 1]);
    let (res, _) = drive(&chain, 1005, &hash(0xbb), 15);
    assert!(matches!(res, Some(Err(RecoveryError::IOError))));
}

#[test]
fn long_chain_walks_many_hops() {
    let mut heights = HashMap::new();
    let mut txs = HashMap::new();
    let mut pre = genesis();
    for i in 1..=50u8 {
        let h = hash(i);
        heights.insert(h.clone(), (i as u64 * 10).to_be_bytes().to_vec());
        txs.insert(h.clone(), utxo_tx(1003, &h, &pre));
        pre = h;
    }
    let chain = Chain { heights, txs };
    let (res, lookups) = drive(&chain, 1003, &hash(50), 255);
    match res {
        Some(Ok(Resolution::Repoint(h))) => assert_eq!(h, hash(25)),
        other => panic!("unexpected {:?}", other),
    }
    assert_eq!(lookups, 26);
}

#[test]
fn schemas_and_lock_ids() {
    let local = LockSchema::local();
    assert_eq!(local.lock_ids(), (1000..1007).collect::<Vec<u64>>());
    let tiered = LockSchema::tiered(32);
    assert_eq!(tiered.lock_ids(), (1000..1008).collect::<Vec<u64>>());
    assert!(tiered.is_genesis(&genesis()));
    assert!(!tiered.is_genesis(&vec![0u8; 32]));
    assert!(!tiered.is_genesis(&{
        let mut g = genesis();
        g[5] = 1;
        g
    }));
    assert!(local.is_pointer(1000, &hash(1)));
    assert!(!local.is_pointer(1001, &hash(1)));
    let empty = LockSchema { first: 9, chain_id: 0, end: 3, hash_len: 32 };
    assert!(empty.lock_ids().is_empty());
}
