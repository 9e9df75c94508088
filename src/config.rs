//! The sections of the node's configuration that these operations read, with the
//! values that stand where a section omits a field.
use vstd::prelude::*;

use crate::codec::{lower_of, str_eq, to_lowercase};

verus! {

/// Default hash width of the controller.
pub const DEFAULT_HASH_LEN: u32 = 32;

/// The raft consensus section.
#[derive(Clone, Debug)]
pub struct RaftConsensusConfig {
    pub wal_path: String,
}

impl Default for RaftConsensusConfig {
    fn default() -> (r: Self)
        ensures
            r.wal_path@ == "./raft-data-dir"@,
    {
        RaftConsensusConfig { wal_path: "./raft-data-dir".to_owned() }
    }
}

/// The overlord consensus section.
#[derive(Clone, Debug)]
pub struct OverlordConsensusConfig {
    pub wal_path: String,
}

impl Default for OverlordConsensusConfig {
    fn default() -> (r: Self)
        ensures
            r.wal_path@ == "./overlord_wal"@,
    {
        OverlordConsensusConfig { wal_path: "./overlord_wal".to_owned() }
    }
}

/// The controller section.
#[derive(Clone, Debug)]
pub struct ControllerConfig {
    pub wal_path: String,
    /// Width of a transaction hash.
    pub hash_len: u32,
}

impl Default for ControllerConfig {
    fn default() -> (r: Self)
        ensures
            r.wal_path@ == "./data/wal"@,
            r.hash_len == DEFAULT_HASH_LEN,
    {
        ControllerConfig { wal_path: "./data/wal".to_owned(), hash_len: DEFAULT_HASH_LEN }
    }
}

/// The executor section.
#[derive(Clone, Debug)]
pub struct ExecutorConfig {
    /// Directory of the executor's databases.
    pub db_path: String,
}

impl Default for ExecutorConfig {
    fn default() -> (r: Self)
        ensures
            r.db_path@ == "data"@,
    {
        ExecutorConfig { db_path: "data".to_owned() }
    }
}

/// The consensus engine of a chain.
#[derive(Clone, Copy, Debug, PartialEq, Eq, Structural)]
pub enum ConsensusType {
    Raft,
    Overlord,
}

/// The engine a lowercase name stands for.
pub open spec fn consensus_of(lower: Seq<char>) -> Option<ConsensusType> {
    if lower == "raft"@ {
        Some(ConsensusType::Raft)
    } else if lower == "overlord"@ {
        Some(ConsensusType::Overlord)
    } else {
        None
    }
}

impl ConsensusType {
    /// The engine that a name already in lowercase stands for: `raft` or `overlord`.
    pub fn from_lowercase(lower: &str) -> (r: Option<ConsensusType>)
        ensures
            r == consensus_of(lower@),
    {
        if str_eq(lower, "raft") {
            Some(ConsensusType::Raft)
        } else if str_eq(lower, "overlord") {
            Some(ConsensusType::Overlord)
        } else {
            None
        }
    }

    /// The engine that a name stands for, in any case: `raft` or `overlord`.
    pub fn parse(name: &str) -> (r: Option<ConsensusType>)
        ensures
            r == consensus_of(lower_of(name@)),
    {
        let lower = to_lowercase(name);
        ConsensusType::from_lowercase(lower.as_str())
    }
}

} // verus!
