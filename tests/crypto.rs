use cloud_op::config::{
    ConsensusType, ControllerConfig, ExecutorConfig, OverlordConsensusConfig,
    RaftConsensusConfig,
};
use cloud_op::crypto::{hash_data, pk2address, CryptoType, HASH_BYTES_LEN};

#[test]
fn keccak_test() {
    let hash_empty: [u8; HASH_BYTES_LEN] = [
        0xc5, 0xd2, 0x46, 0x01, 0x86, 0xf7, 0x23, 0x3c, 0x92, 0x7e, 0x7d, 0xb2, 0xdc, 0xc7,
        0x03, 0xc0, 0xe5, 0x00, 0xb6, 0x53, 0xca, 0x82, 0x27, 0x3b, 0x7b, 0xfa, 0xd8, 0x04,
        0x5d, 0x85, 0xa4, 0x70,
    ];
    assert_eq!(hash_data(&[]), hash_empty.to_vec());
}

#[test]
fn address_is_hash_tail() {
    let pk = [7u8; 64];
    let h = hash_data(&pk);
    assert_eq!(h.len(), 32);
    assert_ne!(h, pk[..32].to_vec());
    assert_eq!(pk2address(&pk), h[12..].to_vec());
    assert_eq!(pk2address(&pk).len(), 20);
}

#[test]
fn type_names_in_any_case() {
    assert_eq!(CryptoType::parse("SM"), Some(CryptoType::Sm));
    assert_eq!(CryptoType::parse("Eth"), Some(CryptoType::Eth));
    assert_eq!(CryptoType::parse("rsa"), None);
    assert_eq!(ConsensusType::parse("RAFT"), Some(ConsensusType::Raft));
    assert_eq!(ConsensusType::parse("Overlord"), Some(ConsensusType::Overlord));
    assert_eq!(ConsensusType::parse("bft"), None);
    assert_eq!(ConsensusType::from_lowercase("Raft"), None);
}

#[test]
fn config_defaults() {
    assert_eq!(RaftConsensusConfig::default().wal_path, "./raft-data-dir");
    assert_eq!(OverlordConsensusConfig::default().wal_path, "./overlord_wal");
    let c = ControllerConfig::default();
    assert_eq!(c.wal_path, "./data/wal");
    assert_eq!(c.hash_len, 32);
    assert_eq!(ExecutorConfig::default().db_path, "data");
}
