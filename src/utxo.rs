//! Resolution of UTXO lock slots. Each slot points at the last transaction that
//! set it; each such transaction points back at its predecessor, down to a genesis
//! marker. Rolling back to a height walks that chain until it finds a transaction
//! recorded at or below the height.
//!
//! The walk alternates loads and decisions: a [`LockResolver`] makes the decisions
//! and asks for each record in turn with a [`Step`]; its caller loads the record.
use vstd::prelude::*;

use crate::codec::{copy_bytes, opt_opt_view, scalar_of, u64_from_be};
use crate::error::RecoveryError;
use crate::proto::{raw_tx_pre_hash, raw_tx_pre_of};

verus! {

/// Lock id of the version slot: the first mutable lock id.
pub const LOCK_ID_VERSION: u64 = 1_000;

/// Lock id of the chain id slot, which holds scalar data and is never rewritten.
pub const LOCK_ID_CHAIN_ID: u64 = 1_001;

/// End (exclusive) of the lock ids in the local backend's schema.
pub const LOCK_ID_BUTTON_LOCAL: u64 = 1_007;

/// End (exclusive) of the lock ids in the tiered backend's schema.
pub const LOCK_ID_BUTTON_TIERED: u64 = 1_008;

/// Width of a transaction hash in both schemas.
pub const HASH_LEN: u32 = 32;

/// The lock-id range, excluded id and hash width of one schema version.
#[derive(Clone, Copy, Debug, PartialEq, Eq, Structural)]
pub struct LockSchema {
    /// The first lock id.
    pub first: u64,
    /// The lock id whose slot is never rewritten.
    pub chain_id: u64,
    /// The end (exclusive) of the lock ids.
    pub end: u64,
    /// The width of a transaction hash; the genesis marker is one byte wider.
    pub hash_len: usize,
}

/// The genesis marker of a schema whose hashes are `hash_len` bytes: that many
/// zero bytes and one more.
pub open spec fn genesis_marker(hash_len: nat) -> Seq<u8> {
    Seq::new(hash_len + 1, |i: int| 0u8)
}

/// The outcome of resolving one slot.
pub enum ResolutionModel {
    Keep,
    Repoint(Seq<u8>),
    Clear,
}

/// What a resolver asks for next, or how it ended.
pub enum StepModel {
    LookupHeight(Seq<u8>),
    LoadTx(Seq<u8>),
    Resolved(ResolutionModel),
    Failed(RecoveryError),
}

/// The state of a resolver.
pub struct ResolverModel {
    pub lock_id: u64,
    pub target: u64,
    pub cursor: Seq<u8>,
    pub hops: u64,
    pub hash_len: nat,
}

/// The outcome of resolving one slot.
#[derive(Debug)]
pub enum Resolution {
    /// The slot already points at a transaction at or below the target: no write.
    Keep,
    /// The slot must now point at this transaction.
    Repoint(Vec<u8>),
    /// The chain unwinds past its first transaction: the slot is deleted.
    Clear,
}

/// What a resolver asks for next, or how it ended.
#[derive(Debug)]
pub enum Step {
    /// Load the recorded height of this transaction (region 7) and pass it to
    /// [`LockResolver::on_recorded_height`].
    LookupHeight(Vec<u8>),
    /// Load the raw bytes of this transaction (region 1) and pass them to
    /// [`LockResolver::on_raw_tx`].
    LoadTx(Vec<u8>),
    /// The slot is resolved.
    Resolved(Resolution),
    /// The chain is broken: the run must stop.
    Failed(RecoveryError),
}

impl View for Resolution {
    type V = ResolutionModel;

    open spec fn view(&self) -> ResolutionModel {
        match self {
            Resolution::Keep => ResolutionModel::Keep,
            Resolution::Repoint(h) => ResolutionModel::Repoint(h@),
            Resolution::Clear => ResolutionModel::Clear,
        }
    }
}

impl View for Step {
    type V = StepModel;

    open spec fn view(&self) -> StepModel {
        match self {
            Step::LookupHeight(h) => StepModel::LookupHeight(h@),
            Step::LoadTx(h) => StepModel::LoadTx(h@),
            Step::Resolved(r) => StepModel::Resolved(r@),
            Step::Failed(e) => StepModel::Failed(*e),
        }
    }
}

/// The walk along one lock slot's chain of transactions.
pub struct LockResolver {
    /// The lock id of the slot.
    pub lock_id: u64,
    /// The height to roll back to.
    pub target: u64,
    /// The transaction under inspection.
    pub cursor: Vec<u8>,
    /// How many predecessors have been followed.
    pub hops: u64,
    /// The schema the slot belongs to.
    pub schema: LockSchema,
}

impl View for LockResolver {
    type V = ResolverModel;

    open spec fn view(&self) -> ResolverModel {
        ResolverModel {
            lock_id: self.lock_id,
            target: self.target,
            cursor: self.cursor@,
            hops: self.hops,
            hash_len: self.schema.hash_len as nat,
        }
    }
}

/// Whether a slot's value is a pointer to be resolved: it has the width of a hash
/// and the slot is not the chain id's.
pub open spec fn is_pointer(schema: LockSchema, lock_id: u64, slot: Seq<u8>) -> bool {
    slot.len() == schema.hash_len && lock_id != schema.chain_id
}

/// A resolver that starts at the transaction that a slot points at.
pub open spec fn fresh(lock_id: u64, target: u64, tx: Seq<u8>, hash_len: nat) -> ResolverModel {
    ResolverModel { lock_id, target, cursor: tx, hops: 0, hash_len }
}

/// The step after the recorded height of the cursor is known (`None`: the record is
/// missing or malformed). At or below the target the walk ends: with no write when
/// no predecessor was followed, else pointing the slot at the cursor. Above it, the
/// cursor's transaction is loaded.
pub open spec fn after_height(s: ResolverModel, recorded: Option<u64>) -> (ResolverModel, StepModel) {
    match recorded {
        None => (s, StepModel::Failed(RecoveryError::IOError)),
        Some(h) => if h <= s.target {
            if s.hops == 0 {
                (s, StepModel::Resolved(ResolutionModel::Keep))
            } else {
                (s, StepModel::Resolved(ResolutionModel::Repoint(s.cursor)))
            }
        } else {
            (s, StepModel::LoadTx(s.cursor))
        },
    }
}

/// The step after the cursor's transaction is decoded (see `raw_tx_pre_of`). A body
/// that does not decode as a UTXO transaction breaks the chain; a predecessor equal
/// to the genesis marker clears the slot; any other predecessor becomes the cursor.
pub open spec fn after_tx(s: ResolverModel, decoded: Option<Option<Seq<u8>>>) -> (
    ResolverModel,
    StepModel,
) {
    match decoded {
        None | Some(None) => (s, StepModel::Failed(RecoveryError::NotUtxoTransaction)),
        Some(Some(pre)) => if pre == genesis_marker(s.hash_len) {
            (s, StepModel::Resolved(ResolutionModel::Clear))
        } else {
            (
                ResolverModel {
                    cursor: pre,
                    hops: if s.hops == u64::MAX {
                        s.hops
                    } else {
                        (s.hops + 1) as u64
                    },
                    ..s
                },
                StepModel::LookupHeight(pre),
            )
        },
    }
}

/// The records that a walk reads: the recorded height of each transaction (region
/// 7) and the predecessor of each UTXO transaction (region 1).
pub struct TxIndex {
    pub heights: Map<Seq<u8>, u64>,
    pub pres: Map<Seq<u8>, Seq<u8>>,
}

/// A walk from `s` whose loads are answered from `idx`, for at most `fuel` steps
/// along the chain: its resolution, or `None` when it fails or runs out of fuel.
pub open spec fn run(idx: TxIndex, s: ResolverModel, fuel: nat) -> Option<ResolutionModel>
    decreases fuel,
{
    if fuel == 0 {
        None
    } else {
        let recorded = if idx.heights.contains_key(s.cursor) {
            Some(idx.heights[s.cursor])
        } else {
            None
        };
        let (s1, st1) = after_height(s, recorded);
        match st1 {
            StepModel::Resolved(res) => Some(res),
            StepModel::LoadTx(_) => {
                let decoded = if idx.pres.contains_key(s.cursor) {
                    Some(Some(idx.pres[s.cursor]))
                } else {
                    None
                };
                let (s2, st2) = after_tx(s1, decoded);
                match st2 {
                    StepModel::Resolved(res) => Some(res),
                    StepModel::LookupHeight(_) => run(idx, s2, (fuel - 1) as nat),
                    _ => None,
                }
            },
            _ => None,
        }
    }
}

impl LockSchema {
    /// The schema of the local backend.
    pub fn local() -> (r: LockSchema)
        ensures
            r == (LockSchema {
                first: LOCK_ID_VERSION,
                chain_id: LOCK_ID_CHAIN_ID,
                end: LOCK_ID_BUTTON_LOCAL,
                hash_len: HASH_LEN as usize,
            }),
    {
        LockSchema {
            first: LOCK_ID_VERSION,
            chain_id: LOCK_ID_CHAIN_ID,
            end: LOCK_ID_BUTTON_LOCAL,
            hash_len: HASH_LEN as usize,
        }
    }

    /// The schema of the tiered backend, with hashes of `hash_len` bytes.
    pub fn tiered(hash_len: u32) -> (r: LockSchema)
        ensures
            r == (LockSchema {
                first: LOCK_ID_VERSION,
                chain_id: LOCK_ID_CHAIN_ID,
                end: LOCK_ID_BUTTON_TIERED,
                hash_len: hash_len as usize,
            }),
    {
        LockSchema {
            first: LOCK_ID_VERSION,
            chain_id: LOCK_ID_CHAIN_ID,
            end: LOCK_ID_BUTTON_TIERED,
            hash_len: hash_len as usize,
        }
    }

    /// The lock ids of the schema, in order.
    pub fn lock_ids(&self) -> (r: Vec<u64>)
        ensures
            r@ == Seq::new(
                if self.first <= self.end {
                    (self.end - self.first) as nat
                } else {
                    0
                },
                |i: int| (self.first + i) as u64,
            ),
    {
        let mut r: Vec<u64> = Vec::new();
        if self.first > self.end {
            return r;
        }
        let mut id: u64 = self.first;
        while id < self.end
            invariant
                self.first <= id <= self.end,
                r@ == Seq::new((id - self.first) as nat, |i: int| (self.first + i) as u64),
            decreases self.end - id,
        {
            r.push(id);
            id += 1;
            assert(r@ =~= Seq::new((id - self.first) as nat, |i: int| (self.first + i) as u64));
        }
        r
    }

    /// Whether the slot's value is a pointer to be resolved.
    pub fn is_pointer(&self, lock_id: u64, slot: &[u8]) -> (r: bool)
        ensures
            r == is_pointer(*self, lock_id, slot@),
    {
        slot.len() == self.hash_len && lock_id != self.chain_id
    }

    /// Whether `pre` is the genesis marker of this schema.
    pub fn is_genesis(&self, pre: &[u8]) -> (r: bool)
        ensures
            r == (pre@ == genesis_marker(self.hash_len as nat)),
    {
        if pre.len() == 0 || pre.len() - 1 != self.hash_len {
            return false;
        }
        let mut i: usize = 0;
        while i < pre.len()
            invariant
                pre@.len() == self.hash_len + 1,
                i <= pre@.len(),
                forall|j: int| 0 <= j < i ==> pre@[j] == 0u8,
            decreases pre@.len() - i,
        {
            if pre[i] != 0u8 {
                assert(pre@[i as int] != genesis_marker(self.hash_len as nat)[i as int]);
                return false;
            }
            i += 1;
        }
        assert(pre@ =~= genesis_marker(self.hash_len as nat));
        true
    }
}

impl LockResolver {
    /// Starts the walk of a slot, given its value: `None` when the value is not a
    /// pointer (the slot never changed since genesis). The first step asks for the
    /// recorded height of the transaction the slot points at.
    pub fn start(schema: LockSchema, lock_id: u64, slot: &[u8], target: u64) -> (r: Option<
        (LockResolver, Step),
    >)
        ensures
            r is Some == is_pointer(schema, lock_id, slot@),
            r matches Some((res, step)) ==> {
                &&& res@ == fresh(lock_id, target, slot@, schema.hash_len as nat)
                &&& res.schema == schema
                &&& step@ == StepModel::LookupHeight(slot@)
            },
    {
        if !schema.is_pointer(lock_id, slot) {
            return None;
        }
        let res = LockResolver { lock_id, target, cursor: copy_bytes(slot), hops: 0, schema };
        Some((res, Step::LookupHeight(copy_bytes(slot))))
    }

    /// Takes the recorded height of the cursor (`None`: there is no record).
    pub fn on_recorded_height(&mut self, record: Option<&[u8]>) -> (r: Step)
        ensures
            (final(self)@, r@) == after_height(
                old(self)@,
                match record {
                    Some(b) => scalar_of(b@),
                    None => None,
                },
            ),
            final(self).schema == old(self).schema,
    {
        let recorded = match record {
            Some(b) => u64_from_be(b),
            None => None,
        };
        match recorded {
            None => Step::Failed(RecoveryError::IOError),
            Some(h) => {
                if h <= self.target {
                    if self.hops == 0 {
                        Step::Resolved(Resolution::Keep)
                    } else {
                        Step::Resolved(Resolution::Repoint(copy_bytes(self.cursor.as_slice())))
                    }
                } else {
                    Step::LoadTx(copy_bytes(self.cursor.as_slice()))
                }
            },
        }
    }

    /// Takes what the cursor's transaction says of its predecessor (see
    /// `raw_tx_pre_of`).
    pub fn on_decoded_tx(&mut self, decoded: Option<Option<Vec<u8>>>) -> (r: Step)
        ensures
            (final(self)@, r@) == after_tx(old(self)@, opt_opt_view(decoded)),
            final(self).schema == old(self).schema,
    {
        match decoded {
            None | Some(None) => Step::Failed(RecoveryError::NotUtxoTransaction),
            Some(Some(pre)) => {
                if self.schema.is_genesis(pre.as_slice()) {
                    Step::Resolved(Resolution::Clear)
                } else {
                    let next = copy_bytes(pre.as_slice());
                    self.cursor = pre;
                    self.hops = self.hops.saturating_add(1);
                    Step::LookupHeight(next)
                }
            },
        }
    }

    /// Takes the raw bytes of the cursor's transaction (`None`: they are missing,
    /// which is an `IOError`).
    pub fn on_raw_tx(&mut self, raw: Option<&[u8]>) -> (r: Step)
        ensures
            raw is None ==> final(self)@ == old(self)@ && r@ == StepModel::Failed(
                RecoveryError::IOError,
            ),
            raw matches Some(b) ==> (final(self)@, r@) == after_tx(old(self)@, raw_tx_pre_of(b@)),
            final(self).schema == old(self).schema,
    {
        match raw {
            Some(b) => {
                let decoded = raw_tx_pre_hash(b);
                self.on_decoded_tx(decoded)
            },
            None => Step::Failed(RecoveryError::IOError),
        }
    }
}

/// A walk never leaves a slot pointing above its target: a slot it repoints now
/// names a transaction recorded at or below the target, and a slot it keeps already
/// did, with no predecessor followed.
pub proof fn lemma_resolution_within_target(idx: TxIndex, s: ResolverModel, fuel: nat)
    ensures
        run(idx, s, fuel) matches Some(ResolutionModel::Repoint(r)) ==> idx.heights.contains_key(r)
            && idx.heights[r] <= s.target,
        run(idx, s, fuel) == Some(ResolutionModel::Keep) ==> s.hops == 0
            && idx.heights.contains_key(s.cursor) && idx.heights[s.cursor] <= s.target,
    decreases fuel,
{
    if fuel > 0 && idx.heights.contains_key(s.cursor) && idx.heights[s.cursor] > s.target
        && idx.pres.contains_key(s.cursor) && idx.pres[s.cursor] != genesis_marker(s.hash_len) {
        let s2 = after_tx(s, Some(Some(idx.pres[s.cursor]))).0;
        lemma_resolution_within_target(idx, s2, (fuel - 1) as nat);
    }
}

/// Resolving a slot a second time, after the first resolution was written, changes
/// nothing: a repointed slot, and a kept one, resolve to `Keep` with no write.
pub proof fn lemma_resolution_idempotent(
    idx: TxIndex,
    lock_id: u64,
    target: u64,
    slot: Seq<u8>,
    hash_len: nat,
    fuel: nat,
    again: nat,
)
    requires
        again > 0,
    ensures
        run(idx, fresh(lock_id, target, slot, hash_len), fuel) matches Some(
            ResolutionModel::Repoint(r),
        ) ==> run(idx, fresh(lock_id, target, r, hash_len), again) == Some(ResolutionModel::Keep),
        run(idx, fresh(lock_id, target, slot, hash_len), fuel) == Some(ResolutionModel::Keep)
            ==> run(idx, fresh(lock_id, target, slot, hash_len), again) == Some(
            ResolutionModel::Keep,
        ),
{
    lemma_resolution_within_target(idx, fresh(lock_id, target, slot, hash_len), fuel);
}

/// The value of a slot once a resolution is written: `None` when it is deleted.
pub open spec fn applied(slot: Seq<u8>, res: ResolutionModel) -> Option<Seq<u8>> {
    match res {
        ResolutionModel::Keep => Some(slot),
        ResolutionModel::Repoint(r) => Some(r),
        ResolutionModel::Clear => None,
    }
}

/// After a rollback to `target` writes a slot's resolution, the slot is absent or
/// names a transaction recorded at or below `target`: no transaction recorded
/// above it stays referenced.
pub proof fn lemma_slot_within_target(
    idx: TxIndex,
    lock_id: u64,
    target: u64,
    slot: Seq<u8>,
    hash_len: nat,
    fuel: nat,
)
    ensures
        run(idx, fresh(lock_id, target, slot, hash_len), fuel) matches Some(res) ==> (applied(
            slot,
            res,
        ) matches Some(t) ==> idx.heights.contains_key(t) && idx.heights[t] <= target),
{
    lemma_resolution_within_target(idx, fresh(lock_id, target, slot, hash_len), fuel);
}

/// The transaction `k` predecessors back from `t`, following the index.
pub open spec fn nth_pre(idx: TxIndex, t: Seq<u8>, k: nat) -> Seq<u8>
    decreases k,
{
    if k == 0 {
        t
    } else {
        idx.pres[nth_pre(idx, t, (k - 1) as nat)]
    }
}

/// The first `k` transactions of the chain from `t` are all recorded above
/// `target`, and each is a UTXO transaction whose predecessor is not genesis.
pub open spec fn above_for(idx: TxIndex, t: Seq<u8>, target: u64, hash_len: nat, k: nat) -> bool {
    forall|j: nat|
        j < k ==> {
            &&& idx.heights.contains_key(#[trigger] nth_pre(idx, t, j))
            &&& idx.heights[nth_pre(idx, t, j)] > target
            &&& idx.pres.contains_key(nth_pre(idx, t, j))
            &&& idx.pres[nth_pre(idx, t, j)] != genesis_marker(hash_len)
        }
}

proof fn lemma_nth_pre_shift(idx: TxIndex, t: Seq<u8>, k: nat)
    ensures
        nth_pre(idx, idx.pres[t], k) == nth_pre(idx, t, k + 1),
    decreases k,
{
    assert(nth_pre(idx, t, 0) == t);
    assert(nth_pre(idx, t, k + 1) == idx.pres[nth_pre(idx, t, k)]);
    if k > 0 {
        lemma_nth_pre_shift(idx, t, (k - 1) as nat);
        assert(nth_pre(idx, idx.pres[t], k) == idx.pres[nth_pre(idx, idx.pres[t], (k - 1) as nat)]);
    }
}

proof fn lemma_above_extend(idx: TxIndex, t: Seq<u8>, target: u64, hash_len: nat, k: nat)
    requires
        idx.heights.contains_key(t),
        idx.heights[t] > target,
        idx.pres.contains_key(t),
        idx.pres[t] != genesis_marker(hash_len),
        above_for(idx, idx.pres[t], target, hash_len, k),
    ensures
        above_for(idx, t, target, hash_len, k + 1),
{
    assert forall|j: nat| j < k + 1 implies {
        &&& idx.heights.contains_key(#[trigger] nth_pre(idx, t, j))
        &&& idx.heights[nth_pre(idx, t, j)] > target
        &&& idx.pres.contains_key(nth_pre(idx, t, j))
        &&& idx.pres[nth_pre(idx, t, j)] != genesis_marker(hash_len)
    } by {
        if j > 0 {
            lemma_nth_pre_shift(idx, t, (j - 1) as nat);
            assert(nth_pre(idx, idx.pres[t], (j - 1) as nat) == nth_pre(idx, t, j));
        }
    }
}

proof fn lemma_run_first_within_target(idx: TxIndex, s: ResolverModel, fuel: nat)
    ensures
        run(idx, s, fuel) matches Some(ResolutionModel::Repoint(r)) ==> exists|k: nat|
            {
                &&& r == #[trigger] nth_pre(idx, s.cursor, k)
                &&& (k > 0 || s.hops > 0)
                &&& idx.heights.contains_key(r)
                &&& idx.heights[r] <= s.target
                &&& above_for(idx, s.cursor, s.target, s.hash_len, k)
            },
        run(idx, s, fuel) == Some(ResolutionModel::Clear) ==> exists|k: nat|
            {
                &&& above_for(idx, s.cursor, s.target, s.hash_len, k)
                &&& idx.heights.contains_key(#[trigger] nth_pre(idx, s.cursor, k))
                &&& idx.heights[nth_pre(idx, s.cursor, k)] > s.target
                &&& idx.pres.contains_key(nth_pre(idx, s.cursor, k))
                &&& idx.pres[nth_pre(idx, s.cursor, k)] == genesis_marker(s.hash_len)
            },
    decreases fuel,
{
    if fuel == 0 || !idx.heights.contains_key(s.cursor) {
        return;
    }
    let t = s.cursor;
    assert(nth_pre(idx, t, 0) == t);
    if idx.heights[t] <= s.target {
        assert(above_for(idx, t, s.target, s.hash_len, 0));
        return;
    }
    if !idx.pres.contains_key(t) {
        return;
    }
    let p = idx.pres[t];
    if p == genesis_marker(s.hash_len) {
        assert(above_for(idx, t, s.target, s.hash_len, 0));
        return;
    }
    let s2 = after_tx(s, Some(Some(p))).0;
    assert(s2.cursor == p && s2.target == s.target && s2.hash_len == s.hash_len);
    assert(run(idx, s, fuel) == run(idx, s2, (fuel - 1) as nat));
    lemma_run_first_within_target(idx, s2, (fuel - 1) as nat);
    if let Some(ResolutionModel::Repoint(r)) = run(idx, s2, (fuel - 1) as nat) {
        let k = choose|k: nat|
            {
                &&& r == #[trigger] nth_pre(idx, p, k)
                &&& (k > 0 || s2.hops > 0)
                &&& idx.heights.contains_key(r)
                &&& idx.heights[r] <= s.target
                &&& above_for(idx, p, s.target, s.hash_len, k)
            };
        lemma_nth_pre_shift(idx, t, k);
        lemma_above_extend(idx, t, s.target, s.hash_len, k);
        assert(r == nth_pre(idx, t, k + 1));
    }
    if run(idx, s2, (fuel - 1) as nat) == Some(ResolutionModel::Clear) {
        let k = choose|k: nat|
            {
                &&& above_for(idx, p, s.target, s.hash_len, k)
                &&& idx.heights.contains_key(#[trigger] nth_pre(idx, p, k))
                &&& idx.heights[nth_pre(idx, p, k)] > s.target
                &&& idx.pres.contains_key(nth_pre(idx, p, k))
                &&& idx.pres[nth_pre(idx, p, k)] == genesis_marker(s.hash_len)
            };
        lemma_nth_pre_shift(idx, t, k);
        lemma_above_extend(idx, t, s.target, s.hash_len, k);
        assert(nth_pre(idx, p, k) == nth_pre(idx, t, k + 1));
    }
}

/// A walk that repoints a slot picks the first transaction of the slot's chain
/// recorded at or below the target: `k >= 1` predecessors back, every transaction
/// before it recorded above the target. A walk that clears a slot found every
/// transaction of the chain, down to the one after genesis, recorded above it.
pub proof fn lemma_resolution_first_within_target(
    idx: TxIndex,
    lock_id: u64,
    target: u64,
    slot: Seq<u8>,
    hash_len: nat,
    fuel: nat,
)
    ensures
        run(idx, fresh(lock_id, target, slot, hash_len), fuel) matches Some(
            ResolutionModel::Repoint(r),
        ) ==> exists|k: nat|
            {
                &&& k >= 1
                &&& r == #[trigger] nth_pre(idx, slot, k)
                &&& idx.heights.contains_key(r)
                &&& idx.heights[r] <= target
                &&& above_for(idx, slot, target, hash_len, k)
            },
        run(idx, fresh(lock_id, target, slot, hash_len), fuel) == Some(ResolutionModel::Clear)
            ==> exists|k: nat|
            {
                &&& above_for(idx, slot, target, hash_len, k)
                &&& idx.heights.contains_key(#[trigger] nth_pre(idx, slot, k))
                &&& idx.heights[nth_pre(idx, slot, k)] > target
                &&& idx.pres.contains_key(nth_pre(idx, slot, k))
                &&& idx.pres[nth_pre(idx, slot, k)] == genesis_marker(hash_len)
            },
{
    lemma_run_first_within_target(idx, fresh(lock_id, target, slot, hash_len), fuel);
}

/// Whether a rollback resolves the slot of `lock_id` holding `v`: its id lies in
/// the schema's range and its value is a pointer.
pub open spec fn resolves(schema: LockSchema, lock_id: u64, v: Seq<u8>) -> bool {
    schema.first <= lock_id < schema.end && is_pointer(schema, lock_id, v)
}

/// The lock slots after a rollback to `target` in which every walk ended: each
/// resolved slot takes its resolution (deleted when cleared), the others stay.
pub open spec fn slots_after(
    idx: TxIndex,
    schema: LockSchema,
    target: u64,
    slots: Map<u64, Seq<u8>>,
    fuel: nat,
) -> Map<u64, Seq<u8>> {
    Map::new(
        |l: u64|
            slots.contains_key(l) && !(resolves(schema, l, slots[l]) && run(
                idx,
                fresh(l, target, slots[l], schema.hash_len as nat),
                fuel,
            ) == Some(ResolutionModel::Clear)),
        |l: u64|
            if resolves(schema, l, slots[l]) {
                match run(idx, fresh(l, target, slots[l], schema.hash_len as nat), fuel) {
                    Some(ResolutionModel::Repoint(r)) => r,
                    _ => slots[l],
                }
            } else {
                slots[l]
            },
    )
}

/// After a rollback to `target` in which every slot's walk ended, no lock slot
/// that was a pointer references a transaction recorded above `target`: each one
/// is deleted or names a transaction recorded at or below it. The other slots are
/// unchanged.
pub proof fn lemma_all_slots_within_target(
    idx: TxIndex,
    schema: LockSchema,
    target: u64,
    slots: Map<u64, Seq<u8>>,
    fuel: nat,
)
    requires
        forall|l: u64|
            slots.contains_key(l) && resolves(schema, l, slots[l]) ==> (#[trigger] run(
                idx,
                fresh(l, target, slots[l], schema.hash_len as nat),
                fuel,
            )) is Some,
    ensures
        forall|l: u64|
            #![trigger slots_after(idx, schema, target, slots, fuel).contains_key(l)]
            slots.contains_key(l) && resolves(schema, l, slots[l]) && slots_after(
                idx,
                schema,
                target,
                slots,
                fuel,
            ).contains_key(l) ==> {
                let v = slots_after(idx, schema, target, slots, fuel)[l];
                idx.heights.contains_key(v) && idx.heights[v] <= target
            },
        forall|l: u64|
            #![trigger slots.contains_key(l)]
            slots.contains_key(l) && !resolves(schema, l, slots[l]) ==> slots_after(
                idx,
                schema,
                target,
                slots,
                fuel,
            ).contains_key(l) && slots_after(idx, schema, target, slots, fuel)[l] == slots[l],
{
    assert forall|l: u64|
        #![trigger slots_after(idx, schema, target, slots, fuel).contains_key(l)]
        slots.contains_key(l) && resolves(schema, l, slots[l]) && slots_after(
            idx,
            schema,
            target,
            slots,
            fuel,
        ).contains_key(l) implies {
        let v = slots_after(idx, schema, target, slots, fuel)[l];
        idx.heights.contains_key(v) && idx.heights[v] <= target
    } by {
        lemma_slot_within_target(idx, l, target, slots[l], schema.hash_len as nat, fuel);
        lemma_resolution_within_target(
            idx,
            fresh(l, target, slots[l], schema.hash_len as nat),
            fuel,
        );
    }
}

} // verus!
