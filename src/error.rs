//! The ways an invocation can fail. Every one of them is fatal to the run.
use vstd::prelude::*;

verus! {

/// Why a backup, rollback or recovery was refused or aborted.
#[derive(Clone, Copy, Debug, PartialEq, Eq, Structural)]
pub enum RecoveryError {
    /// The backend or its configuration is missing or ambiguous.
    ConfigError,
    /// The requested height is not below the current one, or passes the watermark.
    HeightOutOfRange,
    /// A node that the trie refers to is missing.
    CorruptTrie,
    /// The code or abi of an account is missing for a non-empty hash.
    MissingBlob,
    /// A lock slot's chain holds a transaction that is not a UTXO transaction.
    NotUtxoTransaction,
    /// The configured backend does not offer the operation.
    BackendMismatch,
    /// A store is unreachable or holds a malformed record.
    IOError,
}

} // verus!
