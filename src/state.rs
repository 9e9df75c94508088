//! What a state snapshot copies for each account found in the account trie: its
//! code and abi blobs, unless empty, and its own storage trie.
use cita_vm::state::StateObject;
use vstd::prelude::*;

use crate::codec::bytes_eq;
use crate::error::RecoveryError;

verus! {

/// The code hash, abi hash and storage root of an encoded account, or `None`
/// when the bytes do not decode as an account.
pub uninterp spec fn account_of(b: Seq<u8>) -> Option<(Seq<u8>, Seq<u8>, Seq<u8>)>;

/// Relies on cita_vm's `StateObject::from_rlp`: the account's `code_hash`,
/// `abi_hash` and `storage_root`, or `None` when the RLP does not decode.
#[verifier::external_body]
fn decode_account(b: &[u8]) -> (r: Option<(Vec<u8>, Vec<u8>, Vec<u8>)>)
    ensures
        match r {
            Some((c, a, s)) => account_of(b@) == Some((c@, a@, s@)),
            None => account_of(b@) is None,
        },
{
    match StateObject::from_rlp(b) {
        Ok(st) => Some((st.code_hash.0.to_vec(), st.abi_hash.0.to_vec(), st.storage_root.0.to_vec())),
        Err(_) => None,
    }
}

/// What to copy for one account.
pub struct AccountPlan {
    /// The hashes of the blobs to copy (code, then abi), each keyed by its hash.
    pub blobs: Vec<Vec<u8>>,
    /// The root of the account's storage trie, to extract in the account's namespace.
    pub storage_root: Vec<u8>,
}

/// The blobs an account needs: each of its code and abi hashes that is not the
/// hash of empty bytes, code first.
pub open spec fn blobs_of(code: Seq<u8>, abi: Seq<u8>, nil: Seq<u8>) -> Seq<Seq<u8>> {
    let c = if code != nil {
        seq![code]
    } else {
        seq![]
    };
    if abi != nil {
        c.push(abi)
    } else {
        c
    }
}

/// The view of a list of hashes.
pub open spec fn hashes_view(v: Seq<Vec<u8>>) -> Seq<Seq<u8>> {
    v.map_values(|h: Vec<u8>| h@)
}

/// The plan for an account whose code hash, abi hash and storage root are known;
/// `nil` is the hash of empty bytes.
pub fn plan_from_hashes(code: Vec<u8>, abi: Vec<u8>, storage_root: Vec<u8>, nil: &[u8]) -> (r:
    AccountPlan)
    ensures
        hashes_view(r.blobs@) == blobs_of(code@, abi@, nil@),
        r.storage_root@ == storage_root@,
{
    let ghost (c, a) = (code@, abi@);
    let mut blobs: Vec<Vec<u8>> = Vec::new();
    if !bytes_eq(code.as_slice(), nil) {
        blobs.push(code);
    }
    if !bytes_eq(abi.as_slice(), nil) {
        blobs.push(abi);
    }
    assert(hashes_view(blobs@) =~= blobs_of(c, a, nil@));
    AccountPlan { blobs, storage_root }
}

/// The plan for an encoded account found in the account trie; `nil` is the hash of
/// empty bytes. An account that does not decode is an `IOError`.
pub fn plan_account(account: &[u8], nil: &[u8]) -> (r: Result<AccountPlan, RecoveryError>)
    ensures
        match account_of(account@) {
            Some((c, a, s)) => r matches Ok(p) && hashes_view(p.blobs@) == blobs_of(c, a, nil@)
                && p.storage_root@ == s,
            None => r matches Err(e) && e == RecoveryError::IOError,
        },
{
    match decode_account(account) {
        Some((code, abi, root)) => Ok(plan_from_hashes(code, abi, root, nil)),
        None => Err(RecoveryError::IOError),
    }
}

/// A blob that the plan needs, as loaded from the source store: missing is a
/// `MissingBlob`.
pub fn require_blob(loaded: Option<Vec<u8>>) -> (r: Result<Vec<u8>, RecoveryError>)
    ensures
        match loaded {
            Some(b) => r matches Ok(v) && v@ == b@,
            None => r matches Err(e) && e == RecoveryError::MissingBlob,
        },
{
    match loaded {
        Some(b) => Ok(b),
        None => Err(RecoveryError::MissingBlob),
    }
}

} // verus!
