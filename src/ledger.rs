//! The height ledger: the scalars of region 0 (current height, current hash and
//! delete watermark), and how a rollback rewinds them.
use vstd::prelude::*;

use crate::codec::{
    be_bytes, copy_bytes, lemma_be_round_trip, opt_view, scalar_of, u64_from_be, u64_to_be,
};
use crate::error::RecoveryError;
use crate::proto::{compact_block_prevhash, compact_prevhash_of};

verus! {

/// Key of the current height in region 0.
pub const KEY_HEIGHT: u64 = 0;

/// Key of the current hash in region 0 (the backup pointer on the remote tier).
pub const KEY_HASH: u64 = 1;

/// Key of the delete watermark in region 0.
pub const KEY_WATERMARK: u64 = 2;

/// The closed set of storage backends.
#[derive(Clone, Copy, Debug, PartialEq, Eq, Structural)]
pub enum Backend {
    /// A local key-value store whose ledger records the current hash explicitly.
    Local,
    /// A tiered store: local tiers and a remote one; it keeps no current hash.
    Tiered,
}

/// What a ledger holds.
pub struct LedgerModel {
    pub backend: Backend,
    pub height: u64,
    pub hash: Seq<u8>,
    pub watermark: Option<u64>,
}

/// The ledger scalars of one store, read from and written back to region 0.
pub struct Ledger {
    pub backend: Backend,
    pub height: u64,
    /// The current hash; empty, and never written, on a tiered backend.
    pub hash: Vec<u8>,
    /// The delete watermark, where the store records one.
    pub watermark: Option<u64>,
}

impl View for Ledger {
    type V = LedgerModel;

    open spec fn view(&self) -> LedgerModel {
        LedgerModel {
            backend: self.backend,
            height: self.height,
            hash: self.hash@,
            watermark: self.watermark,
        }
    }
}

/// The smaller of two heights.
pub open spec fn min_height(a: u64, b: u64) -> u64 {
    if a <= b {
        a
    } else {
        b
    }
}

/// The watermark after a rollback to `h`: never above `h`, never raised.
pub open spec fn clamped(w: Option<u64>, h: u64) -> Option<u64> {
    match w {
        Some(w) => Some(min_height(w, h)),
        None => None,
    }
}

/// The ledger after a rollback to `h`, where `prevhash` is the previous-block hash
/// declared by block `h + 1` (the local backend's new current hash).
pub open spec fn rewound(l: LedgerModel, h: u64, prevhash: Seq<u8>) -> LedgerModel {
    LedgerModel {
        backend: l.backend,
        height: h,
        hash: if l.backend == Backend::Local {
            prevhash
        } else {
            l.hash
        },
        watermark: clamped(l.watermark, h),
    }
}

/// A rollback of `l` to `h`, given what the successor block declared as its previous
/// hash: the ledger afterwards, and the outcome. A target that is not below the
/// current height is refused; so is a local rollback without a successor hash.
pub open spec fn rollback_outcome(l: LedgerModel, h: u64, prevhash: Option<Seq<u8>>) -> (
    LedgerModel,
    Result<(), RecoveryError>,
) {
    if h >= l.height {
        (l, Err(RecoveryError::HeightOutOfRange))
    } else if l.backend == Backend::Local && prevhash is None {
        (l, Err(RecoveryError::IOError))
    } else {
        (
            rewound(
                l,
                h,
                match prevhash {
                    Some(p) => p,
                    None => Seq::empty(),
                },
            ),
            Ok(()),
        )
    }
}

/// The previous-block hash that an optional successor block declares.
pub open spec fn declared_prevhash(block: Option<Seq<u8>>) -> Option<Seq<u8>> {
    match block {
        Some(b) => compact_prevhash_of(b),
        None => None,
    }
}

/// The records of region 0 that hold the ledger, as (key, bytes).
pub open spec fn ledger_records(l: LedgerModel) -> Seq<(u64, Seq<u8>)> {
    let hashed = if l.backend == Backend::Local {
        seq![(KEY_HEIGHT, be_bytes(l.height)), (KEY_HASH, l.hash)]
    } else {
        seq![(KEY_HEIGHT, be_bytes(l.height))]
    };
    match l.watermark {
        Some(w) => hashed.push((KEY_WATERMARK, be_bytes(w))),
        None => hashed,
    }
}

/// The view of a list of records.
pub open spec fn records_view(r: Seq<(u64, Vec<u8>)>) -> Seq<(u64, Seq<u8>)> {
    r.map_values(|e: (u64, Vec<u8>)| (e.0, e.1@))
}

/// Reads the current height from its record: `None` when the record is malformed.
pub fn read_current_height(height_record: &[u8]) -> (r: Option<u64>)
    ensures
        r == scalar_of(height_record@),
{
    u64_from_be(height_record)
}

impl Ledger {
    /// Reads a ledger from its records: the height, the current hash (ignored on a
    /// tiered backend) and the watermark where the store has one.
    pub fn load(
        backend: Backend,
        height_record: &[u8],
        hash_record: &[u8],
        watermark_record: Option<&[u8]>,
    ) -> (r: Result<Ledger, RecoveryError>)
        ensures
            (r is Ok) == (scalar_of(height_record@) is Some && match watermark_record {
                Some(w) => scalar_of(w@) is Some,
                None => true,
            }),
            r is Err ==> r == Err::<Ledger, RecoveryError>(RecoveryError::IOError),
            r matches Ok(l) ==> {
                &&& l@.backend == backend
                &&& Some(l@.height) == scalar_of(height_record@)
                &&& l@.hash == if backend == Backend::Local {
                    hash_record@
                } else {
                    Seq::empty()
                }
                &&& l@.watermark == match watermark_record {
                    Some(w) => scalar_of(w@),
                    None => None,
                }
            },
    {
        let height = match u64_from_be(height_record) {
            Some(h) => h,
            None => return Err(RecoveryError::IOError),
        };
        let watermark = match watermark_record {
            Some(w) => match u64_from_be(w) {
                Some(v) => Some(v),
                None => return Err(RecoveryError::IOError),
            },
            None => None,
        };
        let hash = match backend {
            Backend::Local => copy_bytes(hash_record),
            Backend::Tiered => Vec::new(),
        };
        Ok(Ledger { backend, height, hash, watermark })
    }

    /// Lowers the watermark to `h` where it stands above it.
    pub fn clamp_watermark(&mut self, h: u64)
        ensures
            final(self)@ == (LedgerModel { watermark: clamped(old(self)@.watermark, h), ..old(self)@ }),
    {
        if let Some(w) = self.watermark {
            if h < w {
                self.watermark = Some(h);
            }
        }
    }

    /// Rolls the ledger back to `h`, given the previous-block hash that block `h + 1`
    /// declares (needed on a local backend only). On refusal the ledger is unchanged.
    pub fn rollback(&mut self, h: u64, prevhash: Option<Vec<u8>>) -> (r: Result<(), RecoveryError>)
        ensures
            (final(self)@, r) == rollback_outcome(old(self)@, h, opt_view(prevhash)),
    {
        if h >= self.height {
            return Err(RecoveryError::HeightOutOfRange);
        }
        match self.backend {
            Backend::Local => {
                match prevhash {
                    Some(p) => {
                        self.hash = p;
                    },
                    None => return Err(RecoveryError::IOError),
                }
            },
            Backend::Tiered => {},
        }
        self.height = h;
        self.clamp_watermark(h);
        Ok(())
    }

    /// Rolls the ledger back to `h`, taking the new current hash from the encoded
    /// compact block stored at height `h + 1`.
    pub fn rollback_to_block(&mut self, h: u64, successor: Option<&[u8]>) -> (r: Result<
        (),
        RecoveryError,
    >)
        ensures
            (final(self)@, r) == rollback_outcome(
                old(self)@,
                h,
                declared_prevhash(
                    match successor {
                        Some(b) => Some(b@),
                        None => None,
                    },
                ),
            ),
    {
        if h >= self.height {
            return Err(RecoveryError::HeightOutOfRange);
        }
        let prevhash = match (self.backend, successor) {
            (Backend::Local, Some(b)) => compact_block_prevhash(b),
            _ => None,
        };
        self.rollback(h, prevhash)
    }

    /// The records of region 0 that hold this ledger, as (key, bytes).
    pub fn records(&self) -> (r: Vec<(u64, Vec<u8>)>)
        ensures
            records_view(r@) == ledger_records(self@),
    {
        let mut r: Vec<(u64, Vec<u8>)> = Vec::new();
        r.push((KEY_HEIGHT, u64_to_be(self.height)));
        if self.backend == Backend::Local {
            r.push((KEY_HASH, copy_bytes(self.hash.as_slice())));
        }
        if let Some(w) = self.watermark {
            r.push((KEY_WATERMARK, u64_to_be(w)));
        }
        assert(records_view(r@) =~= ledger_records(self@));
        r
    }
}

/// Rolling back to `h` a second time leaves the ledger, and so its records, exactly
/// as the first rollback left it: the repeat is refused and changes nothing, and
/// re-applying the rewind itself is a fixed point.
pub proof fn lemma_rollback_idempotent(l: LedgerModel, h: u64, prevhash: Option<Seq<u8>>)
    ensures
        rollback_outcome(rollback_outcome(l, h, prevhash).0, h, prevhash).0 == rollback_outcome(
            l,
            h,
            prevhash,
        ).0,
        ledger_records(rollback_outcome(rollback_outcome(l, h, prevhash).0, h, prevhash).0)
            == ledger_records(rollback_outcome(l, h, prevhash).0),
        rollback_outcome(l, h, prevhash).1 is Ok ==> rewound(
            rollback_outcome(l, h, prevhash).0,
            h,
            match prevhash {
                Some(p) => p,
                None => Seq::empty(),
            },
        ) == rollback_outcome(l, h, prevhash).0,
{
}

/// After a successful rollback to `h` the current height is `h`; on the local
/// backend the current hash is the previous hash that block `h + 1` declares. The
/// records written back hold `h` under the height key and, on the local backend
/// only, that hash under the hash key.
pub proof fn lemma_rollback_consistent(l: LedgerModel, h: u64, prevhash: Option<Seq<u8>>)
    ensures
        rollback_outcome(l, h, prevhash).1 is Ok <==> (h < l.height && (l.backend
            == Backend::Local ==> prevhash is Some)),
        rollback_outcome(l, h, prevhash).1 is Ok ==> rollback_outcome(l, h, prevhash).0.height
            == h,
        rollback_outcome(l, h, prevhash).1 is Ok && l.backend == Backend::Local ==> Some(
            rollback_outcome(l, h, prevhash).0.hash,
        ) == prevhash,
        rollback_outcome(l, h, prevhash).1 is Ok ==> ledger_records(
            rollback_outcome(l, h, prevhash).0,
        )[0] == (KEY_HEIGHT, be_bytes(h)),
        rollback_outcome(l, h, prevhash).1 is Ok && l.backend == Backend::Local ==> (prevhash
            matches Some(p) && ledger_records(rollback_outcome(l, h, prevhash).0)[1] == (
            KEY_HASH,
            p,
        )),
        l.backend == Backend::Tiered ==> forall|i: int|
            0 <= i < ledger_records(rollback_outcome(l, h, prevhash).0).len() ==> (
            #[trigger] ledger_records(rollback_outcome(l, h, prevhash).0)[i]).0 != KEY_HASH,
{
}

/// After a successful rollback to `h` the watermark `w` becomes `min(w, h)`.
pub proof fn lemma_rollback_clamps_watermark(l: LedgerModel, h: u64, prevhash: Option<Seq<u8>>)
    ensures
        rollback_outcome(l, h, prevhash).1 is Ok ==> match l.watermark {
            Some(w) => rollback_outcome(l, h, prevhash).0.watermark == Some(
                if w <= h {
                    w
                } else {
                    h
                },
            ),
            None => rollback_outcome(l, h, prevhash).0.watermark is None,
        },
{
}

/// The records that `records` writes read back as the same ledger: the height
/// record and the watermark record decode to the values they were written from,
/// and the local backend's hash record is the hash itself.
pub proof fn lemma_records_read_back(l: LedgerModel)
    ensures
        ledger_records(l)[0] == (KEY_HEIGHT, be_bytes(l.height)),
        scalar_of(ledger_records(l)[0].1) == Some(l.height),
        l.backend == Backend::Local ==> ledger_records(l)[1] == (KEY_HASH, l.hash),
        l.watermark matches Some(w) ==> {
            let last = ledger_records(l).last();
            &&& last.0 == KEY_WATERMARK
            &&& scalar_of(last.1) == Some(w)
        },
        l.watermark is None ==> ledger_records(l).len() == if l.backend == Backend::Local {
            2int
        } else {
            1int
        },
{
    lemma_be_round_trip(l.height);
    if let Some(w) = l.watermark {
        lemma_be_round_trip(w);
    }
}

/// The remote tier's backup pointer after a rollback to `h`: height `h + 1` with
/// backup index 0, which is twelve bytes.
pub open spec fn rolled_back_pointer(h: u64) -> Seq<u8>
    recommends
        h < u64::MAX,
{
    be_bytes((h + 1) as u64) + seq![0u8, 0u8, 0u8, 0u8]
}

/// The backup pointer to write when the remote tier is rolled back to `h`, given
/// the pointer it holds now (a backup height, then a backup index). The target
/// must stand below the current backup height: a backup at that height may be
/// unfinished.
pub fn backup_pointer_after_rollback(pointer: &[u8], h: u64) -> (r: Result<
    Vec<u8>,
    RecoveryError,
>)
    ensures
        scalar_of(pointer@) is None ==> r == Err::<Vec<u8>, RecoveryError>(
            RecoveryError::IOError,
        ),
        scalar_of(pointer@) matches Some(current) ==> if h >= current {
            r == Err::<Vec<u8>, RecoveryError>(RecoveryError::HeightOutOfRange)
        } else {
            r matches Ok(v) && v@ == rolled_back_pointer(h)
        },
{
    let current = match u64_from_be(pointer) {
        Some(c) => c,
        None => return Err(RecoveryError::IOError),
    };
    if h >= current {
        return Err(RecoveryError::HeightOutOfRange);
    }
    let mut v = u64_to_be(h + 1);
    v.push(0u8);
    v.push(0u8);
    v.push(0u8);
    v.push(0u8);
    assert(v@ =~= rolled_back_pointer(h));
    Ok(v)
}

/// The backup pointer to write when the remote tier is recovered to `h`: the
/// target in eight bytes. It must stand below the current backup height, and not
/// below the local tier's watermark where that is recorded.
pub fn backup_pointer_after_recover(pointer: &[u8], local_watermark: Option<&[u8]>, h: u64) -> (r:
    Result<Vec<u8>, RecoveryError>)
    ensures
        ({
            let wm = match local_watermark {
                Some(w) => Some(scalar_of(w@)),
                None => None,
            };
            if scalar_of(pointer@) is None {
                r == Err::<Vec<u8>, RecoveryError>(RecoveryError::IOError)
            } else if h >= scalar_of(pointer@)->0 {
                r == Err::<Vec<u8>, RecoveryError>(RecoveryError::HeightOutOfRange)
            } else if wm == Some(None::<u64>) {
                r == Err::<Vec<u8>, RecoveryError>(RecoveryError::IOError)
            } else if wm matches Some(Some(w)) && h < w {
                r == Err::<Vec<u8>, RecoveryError>(RecoveryError::HeightOutOfRange)
            } else {
                r matches Ok(v) && v@ == be_bytes(h)
            }
        }),
{
    let current = match u64_from_be(pointer) {
        Some(c) => c,
        None => return Err(RecoveryError::IOError),
    };
    if h >= current {
        return Err(RecoveryError::HeightOutOfRange);
    }
    if let Some(w) = local_watermark {
        match u64_from_be(w) {
            Some(d) => {
                if h < d {
                    return Err(RecoveryError::HeightOutOfRange);
                }
            },
            None => return Err(RecoveryError::IOError),
        }
    }
    Ok(u64_to_be(h))
}

/// The height a backup is taken at: the one requested, or the current height.
/// It may not pass the current height.
pub fn backup_height(requested: Option<u64>, current: u64) -> (r: Result<u64, RecoveryError>)
    ensures
        ({
            let h = match requested {
                Some(h) => h,
                None => current,
            };
            if h <= current {
                r == Ok::<u64, RecoveryError>(h)
            } else {
                r == Err::<u64, RecoveryError>(RecoveryError::HeightOutOfRange)
            }
        }),
{
    let h = match requested {
        Some(h) => h,
        None => current,
    };
    if h <= current {
        Ok(h)
    } else {
        Err(RecoveryError::HeightOutOfRange)
    }
}

/// Checks the range `[begin, end]` of an export: it must be ordered and end no
/// later than the current height.
pub fn check_export_range(begin: u64, end: u64, current: u64) -> (r: Result<(), RecoveryError>)
    ensures
        (r is Ok) == (begin <= end && end <= current),
        r is Err ==> r == Err::<(), RecoveryError>(RecoveryError::HeightOutOfRange),
{
    if end > current || begin > end {
        Err(RecoveryError::HeightOutOfRange)
    } else {
        Ok(())
    }
}

/// The backend that a configuration selects, given which storage sections it
/// holds: exactly one of them must be present; none, or both, is a `ConfigError`.
pub fn select_backend(has_local_section: bool, has_tiered_section: bool) -> (r: Result<
    Backend,
    RecoveryError,
>)
    ensures
        has_local_section && !has_tiered_section ==> r == Ok::<Backend, RecoveryError>(
            Backend::Local,
        ),
        !has_local_section && has_tiered_section ==> r == Ok::<Backend, RecoveryError>(
            Backend::Tiered,
        ),
        has_local_section == has_tiered_section ==> r == Err::<Backend, RecoveryError>(
            RecoveryError::ConfigError,
        ),
{
    if has_local_section && !has_tiered_section {
        Ok(Backend::Local)
    } else if has_tiered_section && !has_local_section {
        Ok(Backend::Tiered)
    } else {
        Err(RecoveryError::ConfigError)
    }
}

/// Checks that the backend has a remote tier, which a rollback or recovery of the
/// backup pointer needs.
pub fn require_remote_tier(backend: Backend) -> (r: Result<(), RecoveryError>)
    ensures
        backend == Backend::Tiered <==> r is Ok,
        r is Err ==> r == Err::<(), RecoveryError>(RecoveryError::BackendMismatch),
{
    match backend {
        Backend::Tiered => Ok(()),
        Backend::Local => Err(RecoveryError::BackendMismatch),
    }
}

} // verus!
