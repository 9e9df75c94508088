//! Hashing of the eth crypto suite, and the choice of suite.
use tiny_keccak::{Hasher, Keccak};
use vstd::prelude::*;

use crate::codec::{lower_of, str_eq, to_lowercase};

verus! {

/// Width of a hash.
pub const HASH_BYTES_LEN: usize = 32;

/// Width of an address: the last bytes of the hash of a public key.
pub const ADDR_BYTES_LEN: usize = 20;

/// The Keccak-256 digest of `data`.
pub uninterp spec fn keccak256_of(data: Seq<u8>) -> Seq<u8>;

/// Relies on tiny_keccak's Keccak-256 (`Keccak::v256`, `update`, `finalize`): the
/// digest of the input, which is always 32 bytes.
#[verifier::external_body]
fn keccak_hash(input: &[u8]) -> (r: Vec<u8>)
    ensures
        r@ == keccak256_of(input@),
        r@.len() == HASH_BYTES_LEN,
{
    let mut result = [0u8; HASH_BYTES_LEN];
    let mut keccak = Keccak::v256();
    keccak.update(input);
    keccak.finalize(&mut result);
    result.to_vec()
}

/// The hash of `data`.
pub fn hash_data(data: &[u8]) -> (r: Vec<u8>)
    ensures
        r@ == keccak256_of(data@),
        r@.len() == HASH_BYTES_LEN,
{
    keccak_hash(data)
}

/// The address of a public key: the last twenty bytes of its hash.
pub fn pk2address(pk: &[u8]) -> (r: Vec<u8>)
    ensures
        r@ == keccak256_of(pk@).subrange(
            (HASH_BYTES_LEN - ADDR_BYTES_LEN) as int,
            HASH_BYTES_LEN as int,
        ),
        r@.len() == ADDR_BYTES_LEN,
{
    let h = hash_data(pk);
    let mut r: Vec<u8> = Vec::new();
    let mut i: usize = HASH_BYTES_LEN - ADDR_BYTES_LEN;
    while i < HASH_BYTES_LEN
        invariant
            h@.len() == HASH_BYTES_LEN,
            HASH_BYTES_LEN - ADDR_BYTES_LEN <= i <= HASH_BYTES_LEN,
            r@ == h@.subrange((HASH_BYTES_LEN - ADDR_BYTES_LEN) as int, i as int),
        decreases HASH_BYTES_LEN - i,
    {
        r.push(h[i]);
        i += 1;
        assert(r@ =~= h@.subrange((HASH_BYTES_LEN - ADDR_BYTES_LEN) as int, i as int));
    }
    r
}

/// The crypto suite of a chain.
#[derive(Clone, Copy, Debug, PartialEq, Eq, Structural)]
pub enum CryptoType {
    Sm,
    Eth,
}

/// The suite a lowercase name stands for.
pub open spec fn crypto_of(lower: Seq<char>) -> Option<CryptoType> {
    if lower == "sm"@ {
        Some(CryptoType::Sm)
    } else if lower == "eth"@ {
        Some(CryptoType::Eth)
    } else {
        None
    }
}

impl CryptoType {
    /// The suite that a name already in lowercase stands for: `sm` or `eth`.
    pub fn from_lowercase(lower: &str) -> (r: Option<CryptoType>)
        ensures
            r == crypto_of(lower@),
    {
        if str_eq(lower, "sm") {
            Some(CryptoType::Sm)
        } else if str_eq(lower, "eth") {
            Some(CryptoType::Eth)
        } else {
            None
        }
    }

    /// The suite that a name stands for, in any case: `sm` or `eth`.
    pub fn parse(name: &str) -> (r: Option<CryptoType>)
        ensures
            r == crypto_of(lower_of(name@)),
    {
        let lower = to_lowercase(name);
        CryptoType::from_lowercase(lower.as_str())
    }
}

} // verus!
