//! Byte encodings shared by every store: big-endian integers, composite keys
//! and the hex addresses of the tiered backend.
use vstd::prelude::*;

verus! {

/// The eight big-endian bytes of `n`.
pub open spec fn be_bytes(n: u64) -> Seq<u8> {
    seq![
        #[verifier::truncate] ((n >> 56u64) as u8),
        #[verifier::truncate] ((n >> 48u64) as u8),
        #[verifier::truncate] ((n >> 40u64) as u8),
        #[verifier::truncate] ((n >> 32u64) as u8),
        #[verifier::truncate] ((n >> 24u64) as u8),
        #[verifier::truncate] ((n >> 16u64) as u8),
        #[verifier::truncate] ((n >> 8u64) as u8),
        #[verifier::truncate] (n as u8),
    ]
}

/// The four big-endian bytes of `n`.
pub open spec fn be_bytes32(n: u32) -> Seq<u8> {
    seq![
        #[verifier::truncate] ((n >> 24u32) as u8),
        #[verifier::truncate] ((n >> 16u32) as u8),
        #[verifier::truncate] ((n >> 8u32) as u8),
        #[verifier::truncate] (n as u8),
    ]
}

/// The `u64` whose big-endian form is the first eight bytes of `b`.
pub open spec fn be_value(b: Seq<u8>) -> u64
    recommends
        b.len() >= 8,
{
    (b[0] as u64) << 56u64
        | (b[1] as u64) << 48u64
        | (b[2] as u64) << 40u64
        | (b[3] as u64) << 32u64
        | (b[4] as u64) << 24u64
        | (b[5] as u64) << 16u64
        | (b[6] as u64) << 8u64
        | (b[7] as u64)
}

/// A scalar record: present only when it holds at least eight bytes.
pub open spec fn scalar_of(b: Seq<u8>) -> Option<u64> {
    if b.len() >= 8 {
        Some(be_value(b))
    } else {
        None
    }
}

/// The key of `key` within `region`: the region in four big-endian bytes, then the key.
pub open spec fn composite(region: u32, key: Seq<u8>) -> Seq<u8> {
    be_bytes32(region) + key
}

/// The view of an optional byte vector.
pub open spec fn opt_view(o: Option<Vec<u8>>) -> Option<Seq<u8>> {
    match o {
        Some(v) => Some(v@),
        None => None,
    }
}

/// The view of a nested optional byte vector.
pub open spec fn opt_opt_view(o: Option<Option<Vec<u8>>>) -> Option<Option<Seq<u8>>> {
    match o {
        Some(i) => Some(opt_view(i)),
        None => None,
    }
}

/// The lowercase hexadecimal digits.
pub open spec fn hex_digits() -> Seq<char> {
    seq!['0', '1', '2', '3', '4', '5', '6', '7', '8', '9', 'a', 'b', 'c', 'd', 'e', 'f']
}

/// Two lowercase hex digits for each byte, high nibble first.
pub open spec fn hex_of(b: Seq<u8>) -> Seq<char>
    decreases b.len(),
{
    if b.len() == 0 {
        seq![]
    } else {
        hex_of(b.drop_last()) + seq![
            hex_digits()[(b.last() / 16) as int],
            hex_digits()[(b.last() % 16) as int],
        ]
    }
}

/// Decoding the encoding of `n` gives `n` back.
pub proof fn lemma_be_round_trip(n: u64)
    ensures
        be_bytes(n).len() == 8,
        be_value(be_bytes(n)) == n,
{
    assert((#[verifier::truncate] ((n >> 56u64) as u8) as u64) << 56u64
        | (#[verifier::truncate] ((n >> 48u64) as u8) as u64) << 48u64
        | (#[verifier::truncate] ((n >> 40u64) as u8) as u64) << 40u64
        | (#[verifier::truncate] ((n >> 32u64) as u8) as u64) << 32u64
        | (#[verifier::truncate] ((n >> 24u64) as u8) as u64) << 24u64
        | (#[verifier::truncate] ((n >> 16u64) as u8) as u64) << 16u64
        | (#[verifier::truncate] ((n >> 8u64) as u8) as u64) << 8u64
        | (#[verifier::truncate] (n as u8) as u64) == n) by (bit_vector);
}

/// The big-endian encoding of `n`.
pub fn u64_to_be(n: u64) -> (r: Vec<u8>)
    ensures
        r@ == be_bytes(n),
{
    let mut r: Vec<u8> = Vec::with_capacity(8);
    r.push(#[verifier::truncate] ((n >> 56u64) as u8));
    r.push(#[verifier::truncate] ((n >> 48u64) as u8));
    r.push(#[verifier::truncate] ((n >> 40u64) as u8));
    r.push(#[verifier::truncate] ((n >> 32u64) as u8));
    r.push(#[verifier::truncate] ((n >> 24u64) as u8));
    r.push(#[verifier::truncate] ((n >> 16u64) as u8));
    r.push(#[verifier::truncate] ((n >> 8u64) as u8));
    r.push(#[verifier::truncate] (n as u8));
    assert(r@ =~= be_bytes(n));
    r
}

/// Reads a scalar record: the `u64` in its first eight bytes, or `None` when it is shorter.
pub fn u64_from_be(b: &[u8]) -> (r: Option<u64>)
    ensures
        r == scalar_of(b@),
{
    if b.len() < 8 {
        return None;
    }
    let v: u64 = (b[0] as u64) << 56u64
        | (b[1] as u64) << 48u64
        | (b[2] as u64) << 40u64
        | (b[3] as u64) << 32u64
        | (b[4] as u64) << 24u64
        | (b[5] as u64) << 16u64
        | (b[6] as u64) << 8u64
        | (b[7] as u64);
    Some(v)
}

/// The key of `key` within `region`, as the local backend stores it.
pub fn composite_key(region: u32, key: &[u8]) -> (r: Vec<u8>)
    ensures
        r@ == composite(region, key@),
{
    let mut r: Vec<u8> = Vec::new();
    r.push(#[verifier::truncate] ((region >> 24u32) as u8));
    r.push(#[verifier::truncate] ((region >> 16u32) as u8));
    r.push(#[verifier::truncate] ((region >> 8u32) as u8));
    r.push(#[verifier::truncate] (region as u8));
    let mut i: usize = 0;
    while i < key.len()
        invariant
            i <= key@.len(),
            r@ == be_bytes32(region) + key@.subrange(0, i as int),
        decreases key@.len() - i,
    {
        r.push(key[i]);
        i += 1;
        assert(key@.subrange(0, i as int) =~= key@.subrange(0, i - 1) + seq![key@[i - 1]]);
    }
    assert(key@.subrange(0, key@.len() as int) =~= key@);
    r
}

/// Relies on hex::encode: two lowercase hex digits for each byte, in order.
#[verifier::external_body]
fn hex_encode(b: &[u8]) -> (r: String)
    ensures
        r@ == hex_of(b@),
{
    hex::encode(b)
}

/// The address of `key` within `region` in the tiered backend: the composite key in hex.
pub fn get_real_key(region: u32, key: &[u8]) -> (r: String)
    ensures
        r@ == hex_of(composite(region, key@)),
{
    let k = composite_key(region, key);
    hex_encode(k.as_slice())
}

/// Byte-wise equality of two strings of bytes.
pub fn bytes_eq(a: &[u8], b: &[u8]) -> (r: bool)
    ensures
        r == (a@ == b@),
{
    if a.len() != b.len() {
        return false;
    }
    let mut i: usize = 0;
    while i < a.len()
        invariant
            a@.len() == b@.len(),
            i <= a@.len(),
            forall|j: int| 0 <= j < i ==> a@[j] == b@[j],
        decreases a@.len() - i,
    {
        if a[i] != b[i] {
            return false;
        }
        i += 1;
    }
    assert(a@ =~= b@);
    true
}

/// A copy of `b`.
pub fn copy_bytes(b: &[u8]) -> (r: Vec<u8>)
    ensures
        r@ == b@,
{
    let mut r: Vec<u8> = Vec::with_capacity(b.len());
    let mut i: usize = 0;
    while i < b.len()
        invariant
            i <= b@.len(),
            r@ == b@.subrange(0, i as int),
        decreases b@.len() - i,
    {
        r.push(b[i]);
        i += 1;
        assert(b@.subrange(0, i as int) =~= b@.subrange(0, i - 1) + seq![b@[i - 1]]);
    }
    assert(b@.subrange(0, b@.len() as int) =~= b@);
    r
}

/// The lowercase form of a string, character by character as Unicode defines it.
pub uninterp spec fn lower_of(s: Seq<char>) -> Seq<char>;

/// Relies on `str::to_lowercase`: the result depends on the characters alone, and
/// the empty string stays empty.
#[verifier::external_body]
pub(crate) fn to_lowercase(s: &str) -> (r: String)
    ensures
        r@ == lower_of(s@),
        s@.len() == 0 ==> r@.len() == 0,
{
    s.to_lowercase()
}

/// Whether two strings hold the same characters.
pub fn str_eq(a: &str, b: &str) -> (r: bool)
    ensures
        r == (a@ == b@),
{
    a.to_owned() == b.to_owned()
}

} // verus!
