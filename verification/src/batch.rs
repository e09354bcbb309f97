//! Batch aggregate lookup.
//!
//! A batch is only as advanced as its least-advanced member, so its status
//! is the minimum of the members' lifecycle statuses by the order
//! Queued < Committed < Finalized, with Rejected its own terminal state
//! that dominates the combination: a batch with a rejected member is
//! rejected.  The status is recomputed from the members on every read,
//! never cached, because members may advance at different times.

use vstd::prelude::*;

use crate::receipt::spec_classify;
use crate::state::{find_batch, find_l2_tx, spec_is_finalized, StorageState};
use crate::types::{ApiError, ApiTxBatch, TxInBlockStatus};

verus! {

/// Position of a status in the order of progression.
pub open spec fn spec_status_rank(s: TxInBlockStatus) -> int {
    match s {
        TxInBlockStatus::Queued => 0,
        TxInBlockStatus::Committed => 1,
        TxInBlockStatus::Finalized => 2,
        TxInBlockStatus::Rejected => 3,
    }
}

/// Combines two member statuses: Rejected dominates, otherwise the earlier
/// status in the order of progression wins.
pub open spec fn spec_combine_status(a: TxInBlockStatus, b: TxInBlockStatus) -> TxInBlockStatus {
    if a == TxInBlockStatus::Rejected || b == TxInBlockStatus::Rejected {
        TxInBlockStatus::Rejected
    } else if spec_status_rank(a) <= spec_status_rank(b) {
        a
    } else {
        b
    }
}

/// The lifecycle status of one batch member: its stored execution outcome
/// classified against block finalization when the finalized store holds it,
/// Queued otherwise (a member still in the pool, or not yet observed, has
/// not advanced at all).
pub open spec fn spec_member_status(s: StorageState, h: u64) -> TxInBlockStatus {
    match find_l2_tx(s.l2_txs@, h) {
        Option::Some(op) => spec_classify(
            Option::Some(op.success),
            spec_is_finalized(s, op.block_number),
        ),
        Option::None => TxInBlockStatus::Queued,
    }
}

/// The member statuses from index `i` on, combined into `acc`.
pub open spec fn spec_batch_status_from(
    s: StorageState,
    hashes: Seq<u64>,
    acc: TxInBlockStatus,
    i: int,
) -> TxInBlockStatus
    decreases hashes.len() - i,
{
    if i < 0 || i >= hashes.len() {
        acc
    } else {
        spec_batch_status_from(
            s,
            hashes,
            spec_combine_status(acc, spec_member_status(s, hashes[i])),
            i + 1,
        )
    }
}

/// The aggregate status of a batch: the combination of all member
/// statuses.  An empty batch has not advanced anywhere, so it is Queued.
pub open spec fn spec_batch_status(s: StorageState, hashes: Seq<u64>) -> TxInBlockStatus {
    if hashes.len() == 0 {
        TxInBlockStatus::Queued
    } else {
        spec_batch_status_from(s, hashes, spec_member_status(s, hashes[0]), 1)
    }
}

/// Computes the lifecycle status of one batch member.
pub fn member_status(storage: &StorageState, h: u64) -> (s: TxInBlockStatus)
    ensures
        s == spec_member_status(*storage, h),
{
    match storage.find_l2_tx_exec(h) {
        Some(op) => crate::receipt::classify(
            Some(op.success),
            op.block_number <= storage.last_finalized_block,
        ),
        None => TxInBlockStatus::Queued,
    }
}

/// Copies a list of member hashes.
pub(crate) fn copy_hashes(v: &Vec<u64>) -> (r: Vec<u64>)
    ensures
        r@ == v@,
{
    let n = v.len();
    let mut r: Vec<u64> = Vec::new();
    let mut i: usize = 0;
    while i < n
        invariant
            i <= n,
            n == v@.len(),
            r@ == v@.subrange(0, i as int),
        decreases n - i,
    {
        r.push(v[i]);
        i = i + 1;
    }
    assert(r@ == v@);
    r
}

/// Computes the aggregate status of a batch from its member hashes.
pub fn batch_status(storage: &StorageState, hashes: &Vec<u64>) -> (s: TxInBlockStatus)
    ensures
        s == spec_batch_status(*storage, hashes@),
{
    let n = hashes.len();
    if n == 0 {
        return TxInBlockStatus::Queued;
    }
    let mut acc = member_status(storage, hashes[0]);
    let mut i: usize = 1;
    while i < n
        invariant
            1 <= i <= n,
            n == hashes@.len(),
            spec_batch_status(*storage, hashes@) == spec_batch_status_from(
                *storage,
                hashes@,
                acc,
                i as int,
            ),
        decreases n - i,
    {
        let m = member_status(storage, hashes[i]);
        acc = if matches!(acc, TxInBlockStatus::Rejected) || matches!(
            m,
            TxInBlockStatus::Rejected,
        ) {
            TxInBlockStatus::Rejected
        } else {
            let keep_acc = match acc {
                TxInBlockStatus::Queued => true,
                TxInBlockStatus::Committed => !matches!(m, TxInBlockStatus::Queued),
                TxInBlockStatus::Finalized => matches!(m, TxInBlockStatus::Finalized),
                TxInBlockStatus::Rejected => false,
            };
            if keep_acc {
                acc
            } else {
                m
            }
        };
        i = i + 1;
    }
    acc
}

impl StorageState {
    /// Looks up a stored batch by its batch hash and assembles its
    /// aggregate information.
    ///
    /// Returns `Err(ApiError::Storage)` exactly when the store is
    /// unavailable and `Ok(None)` when no batch has this hash.  Otherwise
    /// the reply carries the stored member hashes in submission order, the
    /// stored creation timestamp, and the aggregate status recomputed from
    /// the members.
    pub fn get_batch_info(&self, batch_hash: u64) -> (r: Result<Option<ApiTxBatch>, ApiError>)
        ensures
            !self.available ==> r == Err::<Option<ApiTxBatch>, _>(ApiError::Storage),
            self.available ==> match find_batch(self.batches@, batch_hash) {
                Option::None => r == Ok::<_, ApiError>(Option::<ApiTxBatch>::None),
                Option::Some(i) => match r {
                    Ok(Option::Some(api)) => api.batch_hash == self.batches@[i].batch_hash
                        && api.transaction_hashes@ == self.batches@[i].transaction_hashes@
                        && api.created_at == self.batches@[i].created_at && api.batch_status
                        == spec_batch_status(*self, self.batches@[i].transaction_hashes@),
                    _ => false,
                },
            },
    {
        if !self.available {
            return Err(ApiError::Storage);
        }
        match self.find_batch_exec(batch_hash) {
            None => Ok(None),
            Some(i) => {
                let stored = &self.batches[i];
                let transaction_hashes = copy_hashes(&stored.transaction_hashes);
                let status = batch_status(self, &stored.transaction_hashes);
                Ok(
                    Some(
                        ApiTxBatch {
                            batch_hash: stored.batch_hash,
                            transaction_hashes,
                            created_at: stored.created_at,
                            batch_status: status,
                        },
                    ),
                )
            },
        }
    }
}

} // verus!
