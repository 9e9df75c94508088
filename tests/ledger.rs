use cita_cloud_proto::blockchain::{BlockHeader, CompactBlock};
use cloud_op::error::RecoveryError;
use cloud_op::ledger::{
    backup_height, backup_pointer_after_recover, backup_pointer_after_rollback,
    check_export_range, read_current_height, require_remote_tier, select_backend, Backend,
    Ledger,
};
use prost::Message;

fn tiered(height: u64, watermark: Option<u64>) -> Ledger {
    let w = watermark.map(|w| w.to_be_bytes().to_vec());
    Ledger::load(Backend::Tiered, &height.to_be_bytes(), &[], w.as_deref()).unwrap()
}

fn compact_block(prevhash: &[u8]) -> Vec<u8> {
    CompactBlock {
        version: 0,
        header: Some(BlockHeader {
            prevhash: prevhash.to_vec(),
            timestamp: 1,
            height: 51,
            transactions_root: vec![3; 32],
            proposer: vec![4; 20],
        }),
        body: None,
    }
    .encode_to_vec()
}

#[test]
fn rollback_sets_height_and_second_is_no_op() {
    let mut l = tiered(100, Some(60));
    assert_eq!(l.rollback_to_block(50, None), Ok(()));
    assert_eq!(l.height, 50);
    let first = l.records();
    assert_eq!(first[0], (0u64, 50u64.to_be_bytes().to_vec()));
    assert_eq!(l.rollback_to_block(50, None), Err(RecoveryError::HeightOutOfRange));
    assert_eq!(l.records(), first);
}

#[test]
fn watermark_below_target_stays() {
    let mut l = tiered(100, Some(30));
    l.rollback(50, None).unwrap();
    assert_eq!(l.watermark, Some(30));
}

#[test]
fn watermark_above_target_is_clamped() {
    let mut l = tiered(100, Some(60));
    l.rollback(50, None).unwrap();
    assert_eq!(l.watermark, Some(50));
    assert_eq!(l.records()[1], (2u64, 50u64.to_be_bytes().to_vec()));
}

#[test]
fn rollback_to_current_or_above_is_refused() {
    let mut l = tiered(100, None);
    assert_eq!(l.rollback(100, None), Err(RecoveryError::HeightOutOfRange));
    assert_eq!(l.rollback(150, None), Err(RecoveryError::HeightOutOfRange));
    assert_eq!(l.height, 100);
    assert_eq!(l.records().len(), 1);
}

#[test]
fn local_rollback_installs_successor_prevhash() {
    let mut l = Ledger::load(Backend::Local, &100u64.to_be_bytes(), &[9; 32], None).unwrap();
    let block = compact_block(&[7; 32]);
    assert_eq!(l.rollback_to_block(50, Some(&block)), Ok(()));
    assert_eq!(l.height, 50);
    assert_eq!(l.hash, vec![7; 32]);
    let rec = l.records();
    assert_eq!(rec, vec![(0, 50u64.to_be_bytes().to_vec()), (1, vec![7; 32])]);
}

#[test]
fn local_rollback_without_successor_block_fails() {
    let mut l = Ledger::load(Backend::Local, &100u64.to_be_bytes(), &[9; 32], None).unwrap();
    assert_eq!(l.rollback_to_block(50, None), Err(RecoveryError::IOError));
    assert_eq!(l.rollback_to_block(50, Some(&[0xff, 0xff])), Err(RecoveryError::IOError));
    assert_eq!(l.height, 100);
    assert_eq!(l.hash, vec![9; 32]);
}

#[test]
fn load_rejects_short_records() {
    assert_eq!(
        Ledger::load(Backend::Tiered, &[1, 2, 3], &[], None).err(),
        Some(RecoveryError::IOError)
    );
    assert_eq!(
        Ledger::load(Backend::Tiered, &5u64.to_be_bytes(), &[], Some(&[1])).err(),
        Some(RecoveryError::IOError)
    );
    let l = Ledger::load(Backend::Tiered, &[0, 0, 0, 0, 0, 0, 1, 2, 99], &[5], None).unwrap();
    assert_eq!(l.height, 258);
    assert!(l.hash.is_empty());
}

#[test]
fn current_height_reads_first_eight_bytes() {
    assert_eq!(read_current_height(&300u64.to_be_bytes()), Some(300));
    assert_eq!(read_current_height(&[0, 0, 0, 0, 0, 0, 0, 1, 7, 7]), Some(1));
    assert_eq!(read_current_height(&[1]), None);
}

#[test]
fn backup_pointer_rollback() {
    let mut ptr = 40u64.to_be_bytes().to_vec();
    ptr.extend_from_slice(&[0, 0, 0, 3]);
    let mut expected = 21u64.to_be_bytes().to_vec();
    expected.extend_from_slice(&[0, 0, 0, 0]);
    assert_eq!(backup_pointer_after_rollback(&ptr, 20), Ok(expected));
    assert_eq!(backup_pointer_after_rollback(&ptr, 40), Err(RecoveryError::HeightOutOfRange));
    assert_eq!(backup_pointer_after_rollback(&[1, 2], 20), Err(RecoveryError::IOError));
}

#[test]
fn backup_pointer_recover() {
    let ptr = 40u64.to_be_bytes();
    let wm = 10u64.to_be_bytes();
    assert_eq!(
        backup_pointer_after_recover(&ptr, Some(&wm), 20),
        Ok(20u64.to_be_bytes().to_vec())
    );
    assert_eq!(backup_pointer_after_recover(&ptr, None, 5), Ok(5u64.to_be_bytes().to_vec()));
    assert_eq!(
        backup_pointer_after_recover(&ptr, Some(&wm), 5),
        Err(RecoveryError::HeightOutOfRange)
    );
    assert_eq!(
        backup_pointer_after_recover(&ptr, Some(&wm), 40),
        Err(RecoveryError::HeightOutOfRange)
    );
    assert_eq!(backup_pointer_after_recover(&ptr, Some(&[1]), 20), Err(RecoveryError::IOError));
}

#[test]
fn backup_and_export_heights() {
    assert_eq!(backup_height(Some(5), 10), Ok(5));
    assert_eq!(backup_height(None, 10), Ok(10));
    assert_eq!(backup_height(Some(11), 10), Err(RecoveryError::HeightOutOfRange));
    assert_eq!(check_export_range(3, 7, 10), Ok(()));
    assert_eq!(check_export_range(3, 10, 10), Ok(()));
    assert_eq!(check_export_range(3, 11, 10), Err(RecoveryError::HeightOutOfRange));
    assert_eq!(check_export_range(8, 7, 10), Err(RecoveryError::HeightOutOfRange));
}

#[test]
fn backend_selection() {
    assert_eq!(select_backend(true, false), Ok(Backend::Local));
    assert_eq!(select_backend(true, true), Err(RecoveryError::ConfigError));
    assert_eq!(select_backend(false, true), Ok(Backend::Tiered));
    assert_eq!(select_backend(false, false), Err(RecoveryError::ConfigError));
    assert_eq!(require_remote_tier(Backend::Tiered), Ok(()));
    assert_eq!(require_remote_tier(Backend::Local), Err(RecoveryError::BackendMismatch));
}

#[test]
fn clamp_watermark_never_raises() {
    let mut l = tiered(100, Some(30));
    l.clamp_watermark(80);
    assert_eq!(l.watermark, Some(30));
    l.clamp_watermark(20);
    assert_eq!(l.watermark, Some(20));
}

#[test]
fn pointer_rollback_at_largest_height() {
    let ptr = u64::MAX.to_be_bytes();
    let mut expected = u64::MAX.to_be_bytes().to_vec();
    expected.extend_from_slice(&[0, 0, 0, 0]);
    assert_eq!(backup_pointer_after_rollback(&ptr, u64::MAX - 1), Ok(expected));
    assert_eq!(backup_pointer_after_rollback(&ptr, u64::MAX), Err(RecoveryError::HeightOutOfRange));
}

#[test]
fn rollback_to_zero_clamps_watermark_to_zero() {
    let mut l = tiered(1, Some(1));
    assert_eq!(l.rollback(0, None), Ok(()));
    assert_eq!(l.height, 0);
    assert_eq!(l.watermark, Some(0));
    assert_eq!(l.rollback(0, None), Err(RecoveryError::HeightOutOfRange));
}
