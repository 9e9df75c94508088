//! Decoding of the chain's protobuf records (blocks and raw transactions).
use cita_cloud_proto::blockchain::raw_transaction::Tx;
use cita_cloud_proto::blockchain::{Block, CompactBlock, RawTransaction};
use prost::Message;
use vstd::prelude::*;

use crate::codec::{opt_opt_view, opt_view};

verus! {

/// The previous-block hash that the header of the encoded compact block declares;
/// `None` when the bytes do not decode or carry no header.
pub uninterp spec fn compact_prevhash_of(b: Seq<u8>) -> Option<Seq<u8>>;

/// Relies on prost's `Message::decode` for cita_cloud_proto's `CompactBlock`: the
/// header's `prevhash` field, or `None` when decoding fails or the header is absent.
#[verifier::external_body]
pub(crate) fn compact_block_prevhash(b: &[u8]) -> (r: Option<Vec<u8>>)
    ensures
        opt_view(r) == compact_prevhash_of(b@),
{
    match CompactBlock::decode(b) {
        Ok(block) => block.header.map(|h| h.prevhash),
        Err(_) => None,
    }
}

/// What the encoded raw transaction says of its predecessor: `Some(Some(p))` for a
/// UTXO transaction whose previous transaction is `p`, `Some(None)` for another kind
/// of transaction, `None` when the bytes do not decode or carry no transaction.
pub uninterp spec fn raw_tx_pre_of(b: Seq<u8>) -> Option<Option<Seq<u8>>>;

/// Relies on prost's `Message::decode` for cita_cloud_proto's `RawTransaction`: the
/// `pre_tx_hash` of a UTXO transaction, `Some(None)` for a normal transaction, and
/// `None` when decoding fails or the transaction body is absent.
#[verifier::external_body]
pub(crate) fn raw_tx_pre_hash(b: &[u8]) -> (r: Option<Option<Vec<u8>>>)
    ensures
        opt_opt_view(r) == raw_tx_pre_of(b@),
{
    match RawTransaction::decode(b) {
        Ok(raw) => match raw.tx {
            Some(Tx::UtxoTx(u)) => u.transaction.map(|t| Some(t.pre_tx_hash)),
            Some(Tx::NormalTx(_)) => Some(None),
            None => None,
        },
        Err(_) => None,
    }
}

/// What one transaction of a block is, as a plain value: `Some(Some((lock_id,
/// tx_hash)))` for a UTXO transaction, `Some(None)` for a normal one, `None` for an
/// entry that carries no transaction (or a UTXO one without its body).
pub type TxEntry = Option<Option<(u64, Vec<u8>)>>;

/// The view of a block entry.
pub open spec fn entry_view(e: TxEntry) -> Option<Option<(u64, Seq<u8>)>> {
    match e {
        Some(Some((l, h))) => Some(Some((l, h@))),
        Some(None) => Some(None),
        None => None,
    }
}

/// The view of the entries of a block.
pub open spec fn entries_view(e: Option<Vec<TxEntry>>) -> Option<Seq<Option<Option<(u64, Seq<u8>)>>>> {
    match e {
        Some(v) => Some(v@.map_values(|x: TxEntry| entry_view(x))),
        None => None,
    }
}

/// The transactions of the encoded full block, in order, as entries (see
/// `TxEntry`); `None` when the bytes do not decode or carry no body.
pub uninterp spec fn block_entries_of(b: Seq<u8>) -> Option<Seq<Option<Option<(u64, Seq<u8>)>>>>;

/// Relies on prost's `Message::decode` for cita_cloud_proto's `Block`: each raw
/// transaction of the body, in order, with the lock id and hash of a UTXO one.
#[verifier::external_body]
pub(crate) fn block_entries(b: &[u8]) -> (r: Option<Vec<TxEntry>>)
    ensures
        entries_view(r) == block_entries_of(b@),
{
    match Block::decode(b) {
        Ok(block) => block.body.map(|body| {
            body.body.into_iter().map(|raw| match raw.tx {
                Some(Tx::UtxoTx(u)) => u.transaction.map(|t| Some((t.lock_id, u.transaction_hash))),
                Some(Tx::NormalTx(_)) => Some(None),
                None => None,
            }).collect()
        }),
        Err(_) => None,
    }
}

} // verus!
