//! The general properties the library guarantees, stated and proved over
//! the same spec functions the executable functions are verified against.

use vstd::prelude::*;

use crate::api::{
    spec_get_l1_receipt, spec_get_l1_tx_data, spec_get_l2_receipt, spec_get_l2_tx_data,
    spec_get_unconfirmed_l1_receipt, spec_get_unconfirmed_l1_tx_data, spec_queued_l2_receipt,
    spec_tx_data, spec_tx_status,
};
use crate::batch::{
    spec_batch_status, spec_batch_status_from, spec_combine_status, spec_member_status,
    spec_status_rank,
};
use crate::codec::{spec_decode_l2_tx, spec_get_sign_bytes};
use crate::state::{
    find_batch, find_batch_from, find_l1_op, find_l1_op_from, find_l2_tx, find_l2_tx_from,
    find_mempool_tx, find_mempool_tx_from, find_unconfirmed_op_from,
    spec_is_finalized, spec_l1_key, spec_unconfirmed_key, ExecutedL1Op, ExecutedL2Tx,
    StorageState, StoredBatch,
};
use crate::tx_sender::TxSender;
use crate::types::{ApiError, Receipt, TxData, TxInBlockStatus};

verus! {

/// A lookup over the executed L1 operations misses exactly when no record
/// at or after index `i` carries the key.
pub proof fn lemma_find_l1_op_from_none(ops: Seq<ExecutedL1Op>, h: u64, by_eth_hash: bool, i: int)
    requires
        0 <= i <= ops.len(),
    ensures
        (find_l1_op_from(ops, h, by_eth_hash, i) is None) <==> (forall|j: int|
            i <= j < ops.len() ==> #[trigger] spec_l1_key(ops[j], by_eth_hash) != h),
    decreases ops.len() - i,
{
    if i < ops.len() {
        lemma_find_l1_op_from_none(ops, h, by_eth_hash, i + 1);
    }
}

/// A lookup over the executed L2 transactions misses exactly when no
/// record at or after index `i` carries the hash.
pub proof fn lemma_find_l2_tx_from_none(txs: Seq<ExecutedL2Tx>, h: u64, i: int)
    requires
        0 <= i <= txs.len(),
    ensures
        (find_l2_tx_from(txs, h, i) is None) <==> (forall|j: int|
            i <= j < txs.len() ==> (#[trigger] txs[j]).tx_hash != h),
    decreases txs.len() - i,
{
    if i < txs.len() {
        lemma_find_l2_tx_from_none(txs, h, i + 1);
    }
}

/// A lookup over the pool misses exactly when no record at or after index
/// `i` carries the hash.
pub proof fn lemma_find_mempool_tx_from_none(pool: Seq<crate::state::MempoolTx>, h: u64, i: int)
    requires
        0 <= i <= pool.len(),
    ensures
        (find_mempool_tx_from(pool, h, i) is None) <==> (forall|j: int|
            i <= j < pool.len() ==> (#[trigger] pool[j]).tx_hash != h),
    decreases pool.len() - i,
{
    if i < pool.len() {
        lemma_find_mempool_tx_from_none(pool, h, i + 1);
    }
}

/// A lookup over the remote service's unconfirmed operations misses
/// exactly when no record at or after index `i` carries the key.
pub proof fn lemma_find_unconfirmed_op_from_none(
    ops: Seq<crate::state::PendingPriorityOp>,
    h: u64,
    by_eth_hash: bool,
    i: int,
)
    requires
        0 <= i <= ops.len(),
    ensures
        (find_unconfirmed_op_from(ops, h, by_eth_hash, i) is None) <==> (forall|j: int|
            i <= j < ops.len() ==> #[trigger] spec_unconfirmed_key(ops[j], by_eth_hash) != h),
    decreases ops.len() - i,
{
    if i < ops.len() {
        lemma_find_unconfirmed_op_from_none(ops, h, by_eth_hash, i + 1);
    }
}

/// Whether no source anywhere holds a record under identifier `h`, in
/// either identifier space.
pub open spec fn spec_absent_everywhere(s: TxSender, h: u64) -> bool {
    &&& forall|j: int|
        0 <= j < s.pool.l1_ops@.len() ==> #[trigger] spec_l1_key(s.pool.l1_ops@[j], false) != h
    &&& forall|j: int|
        0 <= j < s.pool.l1_ops@.len() ==> #[trigger] spec_l1_key(s.pool.l1_ops@[j], true) != h
    &&& forall|j: int| 0 <= j < s.pool.l2_txs@.len() ==> (#[trigger] s.pool.l2_txs@[j]).tx_hash != h
    &&& forall|j: int|
        0 <= j < s.pool.mempool@.len() ==> (#[trigger] s.pool.mempool@[j]).tx_hash != h
    &&& forall|j: int|
        0 <= j < s.core_api_client.unconfirmed_ops@.len() ==> #[trigger] spec_unconfirmed_key(
            s.core_api_client.unconfirmed_ops@[j],
            false,
        ) != h
    &&& forall|j: int|
        0 <= j < s.core_api_client.unconfirmed_ops@.len() ==> #[trigger] spec_unconfirmed_key(
            s.core_api_client.unconfirmed_ops@[j],
            true,
        ) != h
}

/// An identifier with no record in any source resolves to "not found"
/// from both the receipt endpoint and the full-data endpoint — a distinct
/// outcome, never an error.
#[verifier::rlimit(50)]
pub proof fn lemma_unknown_identifier_not_found(s: TxSender, h: u64)
    requires
        s.pool.available,
        s.core_api_client.available,
        spec_absent_everywhere(s, h),
    ensures
        spec_tx_status(s, h) == Ok::<Option<Receipt>, ApiError>(Option::None),
        spec_tx_data(s, h) == Ok::<Option<TxData>, ApiError>(Option::None),
{
    lemma_find_l1_op_from_none(s.pool.l1_ops@, h, false, 0);
    lemma_find_l1_op_from_none(s.pool.l1_ops@, h, true, 0);
    lemma_find_l2_tx_from_none(s.pool.l2_txs@, h, 0);
    lemma_find_mempool_tx_from_none(s.pool.mempool@, h, 0);
    lemma_find_unconfirmed_op_from_none(s.core_api_client.unconfirmed_ops@, h, false, 0);
    lemma_find_unconfirmed_op_from_none(s.core_api_client.unconfirmed_ops@, h, true, 0);
    assert(spec_get_l1_receipt(s.pool, h) == Ok::<Option<crate::types::L1Receipt>, ApiError>(
        Option::None,
    ));
    assert(spec_get_l2_receipt(s.pool, h) == Ok::<Option<crate::types::L2Receipt>, ApiError>(
        Option::None,
    ));
    assert(spec_get_unconfirmed_l1_receipt(s.core_api_client, h) == Ok::<
        Option<crate::types::L1Receipt>,
        ApiError,
    >(Option::None));
    assert(spec_get_l1_tx_data(s.pool, h) == Ok::<Option<TxData>, ApiError>(Option::None));
    assert(spec_get_l2_tx_data(s.pool, h) == Ok::<Option<TxData>, ApiError>(Option::None));
    assert(spec_get_unconfirmed_l1_tx_data(s.core_api_client, h) == Ok::<
        Option<TxData>,
        ApiError,
    >(Option::None));
}

/// A transaction present only in the pending pool always resolves to
/// exactly Queued, with no rollup block number and no failure reason; its
/// full record likewise carries no block number and status Queued.  The
/// pool stands before the remote core service in the precedence order, so
/// this holds whatever the remote service holds and whether or not it is
/// reachable.
#[verifier::rlimit(50)]
pub proof fn lemma_pool_only_is_queued(s: TxSender, h: u64)
    requires
        s.pool.available,
        forall|j: int|
            0 <= j < s.pool.l1_ops@.len() ==> #[trigger] spec_l1_key(s.pool.l1_ops@[j], false) != h,
        forall|j: int|
            0 <= j < s.pool.l1_ops@.len() ==> #[trigger] spec_l1_key(s.pool.l1_ops@[j], true) != h,
        forall|j: int| 0 <= j < s.pool.l2_txs@.len() ==> (#[trigger] s.pool.l2_txs@[j]).tx_hash != h,
        find_mempool_tx(s.pool.mempool@, h) is Some,
    ensures
        spec_tx_status(s, h) == Ok::<Option<Receipt>, ApiError>(
            Option::Some(Receipt::L2(spec_queued_l2_receipt(h))),
        ),
        spec_queued_l2_receipt(h).status == TxInBlockStatus::Queued,
        spec_queued_l2_receipt(h).rollup_block is None,
        ({
            let m = find_mempool_tx(s.pool.mempool@, h).unwrap();
            (spec_decode_l2_tx(m.tx) is Ok && (match m.eth_sign_data {
                Option::None => true,
                Option::Some(e) => spec_get_sign_bytes(e) is Ok,
            })) ==> (match spec_tx_data(s, h) {
                Ok(Option::Some(d)) => d.tx.status == TxInBlockStatus::Queued
                    && d.tx.block_number is None && d.tx.tx_hash == h,
                _ => false,
            })
        }),
{
    lemma_find_l1_op_from_none(s.pool.l1_ops@, h, false, 0);
    lemma_find_l1_op_from_none(s.pool.l1_ops@, h, true, 0);
    lemma_find_l2_tx_from_none(s.pool.l2_txs@, h, 0);
    assert(spec_get_l1_receipt(s.pool, h) == Ok::<Option<crate::types::L1Receipt>, ApiError>(
        Option::None,
    ));
    assert(spec_get_l1_tx_data(s.pool, h) == Ok::<Option<TxData>, ApiError>(Option::None));
}

/// A transaction whose containing block has a number but is not yet
/// finalized is never reported Finalized: a successful one is Committed, a
/// failed one Rejected.
pub proof fn lemma_unfinalized_never_finalized(
    storage: StorageState,
    h: u64,
    l1_op: ExecutedL1Op,
    l2_op: ExecutedL2Tx,
)
    requires
        storage.available,
    ensures
        (find_l1_op(storage.l1_ops@, h, false) == Option::Some(l1_op) && !spec_is_finalized(
            storage,
            l1_op.block_number,
        )) ==> (match spec_get_l1_receipt(storage, h) {
            Ok(Option::Some(r)) => r.status == TxInBlockStatus::Committed && r.rollup_block
                == Option::Some(l1_op.block_number),
            _ => false,
        }),
        (find_l2_tx(storage.l2_txs@, h) == Option::Some(l2_op) && !spec_is_finalized(
            storage,
            l2_op.block_number,
        )) ==> (match spec_get_l2_receipt(storage, h) {
            Ok(Option::Some(r)) => r.status != TxInBlockStatus::Finalized && (l2_op.success ==> r.status
                == TxInBlockStatus::Committed) && (!l2_op.success ==> r.status
                == TxInBlockStatus::Rejected),
            _ => false,
        }),
{
}

/// Resolution is idempotent: the contracts of the read endpoints pin their
/// results as functions of the collaborator state alone, so two
/// resolutions of the same identifier with no intervening state change in
/// the collaborators yield identical output.
pub proof fn lemma_resolution_idempotent(first: TxSender, second: TxSender, h: u64)
    requires
        first == second,
    ensures
        spec_tx_status(first, h) == spec_tx_status(second, h),
        spec_tx_data(first, h) == spec_tx_data(second, h),
{
}

/// The combination of member statuses, however it is accumulated, is
/// Rejected exactly when a rejected member (or accumulator) occurs, and is
/// otherwise the least-advanced status seen.
proof fn lemma_batch_status_from_is_min(
    s: StorageState,
    hashes: Seq<u64>,
    acc: TxInBlockStatus,
    i: int,
)
    requires
        0 <= i <= hashes.len(),
    ensures
        ({
            let r = spec_batch_status_from(s, hashes, acc, i);
            &&& (acc == TxInBlockStatus::Rejected || exists|j: int|
                i <= j < hashes.len() && #[trigger] spec_member_status(s, hashes[j])
                    == TxInBlockStatus::Rejected) <==> r == TxInBlockStatus::Rejected
            &&& r != TxInBlockStatus::Rejected ==> spec_status_rank(r) <= spec_status_rank(acc)
            &&& r != TxInBlockStatus::Rejected ==> (r == acc || exists|j: int|
                i <= j < hashes.len() && #[trigger] spec_member_status(s, hashes[j]) == r)
            &&& r != TxInBlockStatus::Rejected ==> forall|j: int|
                i <= j < hashes.len() ==> spec_status_rank(r) <= spec_status_rank(
                    #[trigger] spec_member_status(s, hashes[j]),
                )
        }),
    decreases hashes.len() - i,
{
    if i < hashes.len() {
        lemma_batch_status_from_is_min(
            s,
            hashes,
            spec_combine_status(acc, spec_member_status(s, hashes[i])),
            i + 1,
        );
    }
}

/// The aggregate status of a nonempty batch is the minimum lifecycle
/// status over its members, by the order Queued < Committed < Finalized,
/// with Rejected its own terminal: a rejected member rejects the batch.
pub proof fn lemma_batch_status_is_min(s: StorageState, hashes: Seq<u64>)
    requires
        hashes.len() > 0,
    ensures
        (exists|j: int|
            0 <= j < hashes.len() && #[trigger] spec_member_status(s, hashes[j])
                == TxInBlockStatus::Rejected) <==> spec_batch_status(s, hashes)
            == TxInBlockStatus::Rejected,
        spec_batch_status(s, hashes) != TxInBlockStatus::Rejected ==> exists|j: int|
            0 <= j < hashes.len() && #[trigger] spec_member_status(s, hashes[j])
                == spec_batch_status(s, hashes),
        spec_batch_status(s, hashes) != TxInBlockStatus::Rejected ==> forall|j: int|
            0 <= j < hashes.len() ==> spec_status_rank(spec_batch_status(s, hashes))
                <= spec_status_rank(#[trigger] spec_member_status(s, hashes[j])),
{
    lemma_batch_status_from_is_min(s, hashes, spec_member_status(s, hashes[0]), 1);
}

/// A lookup that hits hands back a record the store holds, bearing the
/// looked-up hash.
pub proof fn lemma_find_l2_tx_from_some(txs: Seq<ExecutedL2Tx>, h: u64, i: int)
    requires
        0 <= i <= txs.len(),
    ensures
        match find_l2_tx_from(txs, h, i) {
            Option::Some(op) => op.tx_hash == h && exists|j: int|
                i <= j < txs.len() && (#[trigger] txs[j]) == op,
            Option::None => true,
        },
    decreases txs.len() - i,
{
    if i < txs.len() {
        lemma_find_l2_tx_from_some(txs, h, i + 1);
    }
}

/// Whether a stored execution outcome is well formed: a failure reason is
/// recorded exactly for failed executions.
pub open spec fn spec_wf_executed_l2(op: ExecutedL2Tx) -> bool {
    op.success <==> (op.fail_reason is None)
}

/// Against a store whose executed records are well formed, a resolved L2
/// receipt carries a failure reason exactly when it is Rejected.
pub proof fn lemma_fail_reason_iff_rejected(storage: StorageState, h: u64)
    requires
        storage.available,
        forall|j: int|
            0 <= j < storage.l2_txs@.len() ==> spec_wf_executed_l2(
                #[trigger] storage.l2_txs@[j],
            ),
    ensures
        match spec_get_l2_receipt(storage, h) {
            Ok(Option::Some(r)) => (r.fail_reason is Some) <==> r.status
                == TxInBlockStatus::Rejected,
            _ => true,
        },
{
    lemma_find_l2_tx_from_some(storage.l2_txs@, h, 0);
}

/// Terminal statuses are terminal: under any later snapshot of the same
/// stored records in which finalization has only advanced, a transaction
/// once reported Finalized is still Finalized, and one once reported
/// Rejected is still Rejected.
pub proof fn lemma_terminal_status_stays(earlier: StorageState, later: StorageState, h: u64)
    requires
        earlier.available,
        later.available,
        earlier.l2_txs@ == later.l2_txs@,
        earlier.mempool@ == later.mempool@,
        earlier.last_finalized_block <= later.last_finalized_block,
    ensures
        (match spec_get_l2_receipt(earlier, h) {
            Ok(Option::Some(r)) => r.status == TxInBlockStatus::Finalized,
            _ => false,
        }) ==> (match spec_get_l2_receipt(later, h) {
            Ok(Option::Some(r)) => r.status == TxInBlockStatus::Finalized,
            _ => false,
        }),
        (match spec_get_l2_receipt(earlier, h) {
            Ok(Option::Some(r)) => r.status == TxInBlockStatus::Rejected,
            _ => false,
        }) ==> (match spec_get_l2_receipt(later, h) {
            Ok(Option::Some(r)) => r.status == TxInBlockStatus::Rejected,
            _ => false,
        }),
{
}

/// A receipt carries a rollup block pointer exactly when the transaction
/// has advanced past Queued: a queued transaction has no block yet, and a
/// sequenced one (Committed, Finalized, or Rejected) always names its
/// block.
pub proof fn lemma_block_present_iff_past_queued(s: TxSender, h: u64)
    ensures
        match spec_tx_status(s, h) {
            Ok(Option::Some(Receipt::L1(r))) => (r.rollup_block is Some) <==> r.status
                != TxInBlockStatus::Queued,
            Ok(Option::Some(Receipt::L2(r))) => (r.rollup_block is Some) <==> r.status
                != TxInBlockStatus::Queued,
            _ => true,
        },
{
}

/// The status a batch member contributes is the status its own receipt
/// reports: an executed member's classified status, Queued for a member
/// still pending (or unknown), and never anything else.
pub proof fn lemma_member_status_matches_receipt(storage: StorageState, h: u64)
    requires
        storage.available,
    ensures
        match spec_get_l2_receipt(storage, h) {
            Ok(Option::Some(r)) => spec_member_status(storage, h) == r.status,
            Ok(Option::None) => spec_member_status(storage, h) == TxInBlockStatus::Queued,
            Err(_) => false,
        },
{
}

/// Extending the batch store by one batch with a hash no stored batch
/// carries makes that batch the one a lookup of its hash finds.
pub proof fn lemma_find_batch_after_append(
    before: Seq<StoredBatch>,
    after: Seq<StoredBatch>,
    h: u64,
    i: int,
)
    requires
        find_batch(before, h) is None,
        after.len() == before.len() + 1,
        after.subrange(0, before.len() as int) == before,
        after.last().batch_hash == h,
        0 <= i <= before.len(),
    ensures
        find_batch_from(after, h, i) == Option::Some(before.len() as int),
    decreases before.len() - i,
{
    assert(forall|j: int| 0 <= j < before.len() ==> after[j] == #[trigger] before[j]) by {
        assert(forall|j: int|
            0 <= j < before.len() ==> #[trigger] before[j] == after.subrange(
                0,
                before.len() as int,
            )[j]);
    }
    lemma_find_batch_none_iff(before, h, 0);
    if i < before.len() {
        assert(after[i] == before[i]);
        assert(before[i].batch_hash != h);
        lemma_find_batch_after_append(before, after, h, i + 1);
    } else {
        assert(i == after.len() - 1);
        assert(after[i].batch_hash == h);
    }
}

/// A batch lookup misses exactly when no stored batch at or after index
/// `i` carries the hash.
pub proof fn lemma_find_batch_none_iff(batches: Seq<StoredBatch>, h: u64, i: int)
    requires
        0 <= i <= batches.len(),
    ensures
        (find_batch_from(batches, h, i) is None) <==> (forall|j: int|
            i <= j < batches.len() ==> (#[trigger] batches[j]).batch_hash != h),
    decreases batches.len() - i,
{
    if i < batches.len() {
        lemma_find_batch_none_iff(batches, h, i + 1);
    }
}

/// Submitting a batch whose batch hash no stored batch carries and then
/// fetching batch information finds exactly the submitted batch: the
/// member hashes in submission order under the locally computed batch
/// hash.
pub proof fn lemma_submitted_batch_found(
    before: Seq<StoredBatch>,
    after: Seq<StoredBatch>,
    h: u64,
)
    requires
        find_batch(before, h) is None,
        after.len() == before.len() + 1,
        after.subrange(0, before.len() as int) == before,
        after.last().batch_hash == h,
    ensures
        find_batch(after, h) == Option::Some(before.len() as int),
        after[before.len() as int] == after.last(),
{
    lemma_find_batch_after_append(before, after, h, 0);
}

} // verus!
