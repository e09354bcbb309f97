//! The modeled collaborators: the local store (finalized L1 operations,
//! finalized L2 transactions, the pending pool, block finalization, the
//! settlement index and batch information) and the remote core service.
//!
//! Each collaborator is a snapshot of plain values plus an availability
//! flag.  A query on an unavailable collaborator returns the corresponding
//! `ApiError` variant; "not found" is `Ok(None)`, never an error.  Every
//! lookup resolves to the first record whose key matches, stated by the
//! `find_*` spec functions.

use vstd::prelude::*;

use crate::codec::{EncodedL1Op, EncodedL2Tx, EncodedSignData};
use crate::types::{ApiError, L1Op, L2Tx};

verus! {

/// A stored, executed L1-origin (priority) operation.  `tx_hash` is the
/// rollup's own sync hash, `eth_hash` the originating chain's transaction
/// hash; the store indexes both.
#[derive(Clone, Copy, Debug, PartialEq, Eq)]
pub struct ExecutedL1Op {
    pub tx_hash: u64,
    pub eth_hash: u64,
    pub eth_block: u64,
    pub block_number: u32,
    pub priority_op_serialid: u64,
    pub operation: EncodedL1Op,
    pub created_at: u64,
}

/// A stored, executed L2 transaction.
#[derive(Clone, Copy, Debug, PartialEq, Eq)]
pub struct ExecutedL2Tx {
    pub tx_hash: u64,
    pub block_number: u32,
    pub success: bool,
    pub fail_reason: Option<u64>,
    pub tx: EncodedL2Tx,
    pub created_at: u64,
    pub eth_sign_data: Option<EncodedSignData>,
}

/// The store's receipt view of an executed L2 transaction: the stored
/// execution outcome joined with the finalization of its block.
#[derive(Clone, Copy, Debug, PartialEq, Eq)]
pub struct TxReceiptResponse {
    pub tx_hash: u64,
    pub block_number: u32,
    pub success: bool,
    pub verified: bool,
    pub fail_reason: Option<u64>,
}

/// A transaction sitting in the pending pool.
#[derive(Clone, Copy, Debug, PartialEq, Eq)]
pub struct MempoolTx {
    pub tx_hash: u64,
    pub tx: EncodedL2Tx,
    pub created_at: u64,
    pub eth_sign_data: Option<EncodedSignData>,
}

/// An L1 operation known only to the remote core service: observed on the
/// originating chain, assigned a sequential id, not yet indexed locally.
#[derive(Clone, Copy, Debug, PartialEq, Eq)]
pub struct PendingPriorityOp {
    pub sync_hash: u64,
    pub eth_hash: u64,
    pub eth_block: u64,
    pub serial_id: u64,
    pub data: L1Op,
}

/// A record of a settlement transaction already produced on the originating
/// chain for one withdrawing rollup transaction.
#[derive(Clone, Copy, Debug, PartialEq, Eq)]
pub struct SettlementRecord {
    pub tx_hash: u64,
    pub eth_tx_hash: u64,
}

/// A stored batch: the member hashes in submission order and the batch hash
/// committing to that order.
#[derive(Clone, Debug, PartialEq, Eq)]
pub struct StoredBatch {
    pub batch_hash: u64,
    pub transaction_hashes: Vec<u64>,
    pub created_at: u64,
    pub signature: Option<u64>,
}

/// Snapshot of the local store.  `clock` is the timestamp the store assigns
/// to newly inserted pool records; `last_finalized_block` is the highest
/// block number confirmed irreversible (finalization is monotone, so one
/// number describes it).
#[derive(Clone, Debug, PartialEq, Eq)]
pub struct StorageState {
    pub available: bool,
    pub l1_ops: Vec<ExecutedL1Op>,
    pub l2_txs: Vec<ExecutedL2Tx>,
    pub mempool: Vec<MempoolTx>,
    pub last_finalized_block: u32,
    pub settlements: Vec<SettlementRecord>,
    pub batches: Vec<StoredBatch>,
    pub clock: u64,
}

/// Snapshot of the remote core service: the unconfirmed operations it can
/// answer for, and whether it is reachable and currently accepting
/// submissions.  When it declines a submission, `reject_code` is the reason
/// it reports, passed through unchanged.
#[derive(Clone, Debug, PartialEq, Eq)]
pub struct CoreState {
    pub available: bool,
    pub accepts_txs: bool,
    pub reject_code: u64,
    pub unconfirmed_ops: Vec<PendingPriorityOp>,
}

/// The key an executed L1 operation is looked up by: the chain hash when
/// `by_eth_hash` is set, the sync hash otherwise.
pub open spec fn spec_l1_key(op: ExecutedL1Op, by_eth_hash: bool) -> u64 {
    if by_eth_hash {
        op.eth_hash
    } else {
        op.tx_hash
    }
}

/// The key an unconfirmed operation is looked up by.
pub open spec fn spec_unconfirmed_key(p: PendingPriorityOp, by_eth_hash: bool) -> u64 {
    if by_eth_hash {
        p.eth_hash
    } else {
        p.sync_hash
    }
}

/// First executed L1 operation at or after index `i` whose key matches `h`.
pub open spec fn find_l1_op_from(
    ops: Seq<ExecutedL1Op>,
    h: u64,
    by_eth_hash: bool,
    i: int,
) -> Option<ExecutedL1Op>
    decreases ops.len() - i,
{
    if i < 0 || i >= ops.len() {
        Option::None
    } else if spec_l1_key(ops[i], by_eth_hash) == h {
        Option::Some(ops[i])
    } else {
        find_l1_op_from(ops, h, by_eth_hash, i + 1)
    }
}

/// First executed L1 operation whose key matches `h`.
pub open spec fn find_l1_op(ops: Seq<ExecutedL1Op>, h: u64, by_eth_hash: bool) -> Option<
    ExecutedL1Op,
> {
    find_l1_op_from(ops, h, by_eth_hash, 0)
}

/// First executed L2 transaction at or after index `i` with hash `h`.
pub open spec fn find_l2_tx_from(txs: Seq<ExecutedL2Tx>, h: u64, i: int) -> Option<ExecutedL2Tx>
    decreases txs.len() - i,
{
    if i < 0 || i >= txs.len() {
        Option::None
    } else if txs[i].tx_hash == h {
        Option::Some(txs[i])
    } else {
        find_l2_tx_from(txs, h, i + 1)
    }
}

/// First executed L2 transaction with hash `h`.
pub open spec fn find_l2_tx(txs: Seq<ExecutedL2Tx>, h: u64) -> Option<ExecutedL2Tx> {
    find_l2_tx_from(txs, h, 0)
}

/// First pool record at or after index `i` with hash `h`.
pub open spec fn find_mempool_tx_from(pool: Seq<MempoolTx>, h: u64, i: int) -> Option<MempoolTx>
    decreases pool.len() - i,
{
    if i < 0 || i >= pool.len() {
        Option::None
    } else if pool[i].tx_hash == h {
        Option::Some(pool[i])
    } else {
        find_mempool_tx_from(pool, h, i + 1)
    }
}

/// First pool record with hash `h`.
pub open spec fn find_mempool_tx(pool: Seq<MempoolTx>, h: u64) -> Option<MempoolTx> {
    find_mempool_tx_from(pool, h, 0)
}

/// First unconfirmed operation at or after index `i` whose key matches `h`.
pub open spec fn find_unconfirmed_op_from(
    ops: Seq<PendingPriorityOp>,
    h: u64,
    by_eth_hash: bool,
    i: int,
) -> Option<PendingPriorityOp>
    decreases ops.len() - i,
{
    if i < 0 || i >= ops.len() {
        Option::None
    } else if spec_unconfirmed_key(ops[i], by_eth_hash) == h {
        Option::Some(ops[i])
    } else {
        find_unconfirmed_op_from(ops, h, by_eth_hash, i + 1)
    }
}

/// First unconfirmed operation whose key matches `h`.
pub open spec fn find_unconfirmed_op(
    ops: Seq<PendingPriorityOp>,
    h: u64,
    by_eth_hash: bool,
) -> Option<PendingPriorityOp> {
    find_unconfirmed_op_from(ops, h, by_eth_hash, 0)
}

/// First settlement record at or after index `i` for rollup hash `h`.
pub open spec fn find_settlement_from(recs: Seq<SettlementRecord>, h: u64, i: int) -> Option<u64>
    decreases recs.len() - i,
{
    if i < 0 || i >= recs.len() {
        Option::None
    } else if recs[i].tx_hash == h {
        Option::Some(recs[i].eth_tx_hash)
    } else {
        find_settlement_from(recs, h, i + 1)
    }
}

/// Settlement chain-transaction hash recorded for rollup hash `h`, if any.
pub open spec fn find_settlement(recs: Seq<SettlementRecord>, h: u64) -> Option<u64> {
    find_settlement_from(recs, h, 0)
}

/// Index of the first stored batch at or after `i` with batch hash `h`.
pub open spec fn find_batch_from(batches: Seq<StoredBatch>, h: u64, i: int) -> Option<int>
    decreases batches.len() - i,
{
    if i < 0 || i >= batches.len() {
        Option::None
    } else if batches[i].batch_hash == h {
        Option::Some(i)
    } else {
        find_batch_from(batches, h, i + 1)
    }
}

/// Index of the first stored batch with batch hash `h`.
pub open spec fn find_batch(batches: Seq<StoredBatch>, h: u64) -> Option<int> {
    find_batch_from(batches, h, 0)
}

/// Whether block `n` is confirmed irreversible in this snapshot.
pub open spec fn spec_is_finalized(s: StorageState, n: u32) -> bool {
    n <= s.last_finalized_block
}

impl StorageState {
    /// Looks up an executed L1 operation by the rollup's sync hash.
    ///
    /// Returns the first matching record, `Ok(None)` when none matches, and
    /// `Err(ApiError::Storage)` exactly when the store is unavailable.
    pub fn get_executed_priority_operation_by_tx_hash(&self, h: u64) -> (r: Result<
        Option<ExecutedL1Op>,
        ApiError,
    >)
        ensures
            self.available ==> r == Ok::<_, ApiError>(find_l1_op(self.l1_ops@, h, false)),
            !self.available ==> r == Err::<Option<ExecutedL1Op>, _>(ApiError::Storage),
    {
        if !self.available {
            return Err(ApiError::Storage);
        }
        Ok(self.find_l1_op_exec(h, false))
    }

    /// Looks up an executed L1 operation by the originating chain's hash.
    pub fn get_executed_priority_operation_by_eth_hash(&self, h: u64) -> (r: Result<
        Option<ExecutedL1Op>,
        ApiError,
    >)
        ensures
            self.available ==> r == Ok::<_, ApiError>(find_l1_op(self.l1_ops@, h, true)),
            !self.available ==> r == Err::<Option<ExecutedL1Op>, _>(ApiError::Storage),
    {
        if !self.available {
            return Err(ApiError::Storage);
        }
        Ok(self.find_l1_op_exec(h, true))
    }

    /// Scans the executed L1 operations for the first key match.
    fn find_l1_op_exec(&self, h: u64, by_eth_hash: bool) -> (r: Option<ExecutedL1Op>)
        ensures
            r == find_l1_op(self.l1_ops@, h, by_eth_hash),
    {
        let n = self.l1_ops.len();
        let mut i: usize = 0;
        while i < n
            invariant
                i <= n,
                n == self.l1_ops@.len(),
                find_l1_op(self.l1_ops@, h, by_eth_hash) == find_l1_op_from(
                    self.l1_ops@,
                    h,
                    by_eth_hash,
                    i as int,
                ),
            decreases n - i,
        {
            let key = if by_eth_hash {
                self.l1_ops[i].eth_hash
            } else {
                self.l1_ops[i].tx_hash
            };
            if key == h {
                return Some(self.l1_ops[i]);
            }
            i = i + 1;
        }
        None
    }

    /// Looks up an executed L2 transaction by hash.
    pub fn get_executed_operation(&self, h: u64) -> (r: Result<Option<ExecutedL2Tx>, ApiError>)
        ensures
            self.available ==> r == Ok::<_, ApiError>(find_l2_tx(self.l2_txs@, h)),
            !self.available ==> r == Err::<Option<ExecutedL2Tx>, _>(ApiError::Storage),
    {
        if !self.available {
            return Err(ApiError::Storage);
        }
        Ok(self.find_l2_tx_exec(h))
    }

    /// Scans the executed L2 transactions for the first hash match.
    pub(crate) fn find_l2_tx_exec(&self, h: u64) -> (r: Option<ExecutedL2Tx>)
        ensures
            r == find_l2_tx(self.l2_txs@, h),
    {
        let n = self.l2_txs.len();
        let mut i: usize = 0;
        while i < n
            invariant
                i <= n,
                n == self.l2_txs@.len(),
                find_l2_tx(self.l2_txs@, h) == find_l2_tx_from(self.l2_txs@, h, i as int),
            decreases n - i,
        {
            if self.l2_txs[i].tx_hash == h {
                return Some(self.l2_txs[i]);
            }
            i = i + 1;
        }
        None
    }

    /// The store's receipt view of an executed L2 transaction: the stored
    /// outcome joined with the finalization of its block.
    pub open spec fn spec_tx_receipt(&self, h: u64) -> Option<TxReceiptResponse> {
        match find_l2_tx(self.l2_txs@, h) {
            Option::None => Option::None,
            Option::Some(op) => Option::Some(
                TxReceiptResponse {
                    tx_hash: op.tx_hash,
                    block_number: op.block_number,
                    success: op.success,
                    verified: spec_is_finalized(*self, op.block_number),
                    fail_reason: op.fail_reason,
                },
            ),
        }
    }

    /// Fetches the receipt view of an executed L2 transaction.
    pub fn tx_receipt(&self, h: u64) -> (r: Result<Option<TxReceiptResponse>, ApiError>)
        ensures
            self.available ==> r == Ok::<_, ApiError>(self.spec_tx_receipt(h)),
            !self.available ==> r == Err::<Option<TxReceiptResponse>, _>(ApiError::Storage),
    {
        if !self.available {
            return Err(ApiError::Storage);
        }
        match self.find_l2_tx_exec(h) {
            None => Ok(None),
            Some(op) => {
                let verified = op.block_number <= self.last_finalized_block;
                Ok(
                    Some(
                        TxReceiptResponse {
                            tx_hash: op.tx_hash,
                            block_number: op.block_number,
                            success: op.success,
                            verified,
                            fail_reason: op.fail_reason,
                        },
                    ),
                )
            },
        }
    }

    /// Whether the pool holds a transaction with hash `h` (the status-only
    /// check, cheaper than a full fetch).
    pub fn contains_tx(&self, h: u64) -> (r: Result<bool, ApiError>)
        ensures
            self.available ==> r == Ok::<_, ApiError>(find_mempool_tx(self.mempool@, h) is Some),
            !self.available ==> r == Err::<bool, _>(ApiError::Storage),
    {
        match self.get_mempool_tx(h) {
            Ok(Some(_)) => Ok(true),
            Ok(None) => Ok(false),
            Err(e) => Err(e),
        }
    }

    /// Fetches the full pool record with hash `h`.
    pub fn get_mempool_tx(&self, h: u64) -> (r: Result<Option<MempoolTx>, ApiError>)
        ensures
            self.available ==> r == Ok::<_, ApiError>(find_mempool_tx(self.mempool@, h)),
            !self.available ==> r == Err::<Option<MempoolTx>, _>(ApiError::Storage),
    {
        if !self.available {
            return Err(ApiError::Storage);
        }
        let n = self.mempool.len();
        let mut i: usize = 0;
        while i < n
            invariant
                self.available,
                i <= n,
                n == self.mempool@.len(),
                find_mempool_tx(self.mempool@, h) == find_mempool_tx_from(
                    self.mempool@,
                    h,
                    i as int,
                ),
            decreases n - i,
        {
            if self.mempool[i].tx_hash == h {
                return Ok(Some(self.mempool[i]));
            }
            i = i + 1;
        }
        Ok(None)
    }

    /// Whether block `n` is confirmed irreversible.
    pub fn is_block_finalized(&self, n: u32) -> (r: Result<bool, ApiError>)
        ensures
            self.available ==> r == Ok::<_, ApiError>(spec_is_finalized(*self, n)),
            !self.available ==> r == Err::<bool, _>(ApiError::Storage),
    {
        if !self.available {
            return Err(ApiError::Storage);
        }
        Ok(n <= self.last_finalized_block)
    }

    /// Looks up the settlement transaction recorded on the originating
    /// chain for the withdrawing rollup transaction with hash `h`.
    pub fn eth_tx_for_withdrawal(&self, h: u64) -> (r: Result<Option<u64>, ApiError>)
        ensures
            self.available ==> r == Ok::<_, ApiError>(find_settlement(self.settlements@, h)),
            !self.available ==> r == Err::<Option<u64>, _>(ApiError::Storage),
    {
        if !self.available {
            return Err(ApiError::Storage);
        }
        let n = self.settlements.len();
        let mut i: usize = 0;
        while i < n
            invariant
                self.available,
                i <= n,
                n == self.settlements@.len(),
                find_settlement(self.settlements@, h) == find_settlement_from(
                    self.settlements@,
                    h,
                    i as int,
                ),
            decreases n - i,
        {
            if self.settlements[i].tx_hash == h {
                return Ok(Some(self.settlements[i].eth_tx_hash));
            }
            i = i + 1;
        }
        Ok(None)
    }

    /// Index of the stored batch with batch hash `h`.
    pub fn find_batch_exec(&self, h: u64) -> (r: Option<usize>)
        ensures
            match r {
                Option::Some(i) => i < self.batches@.len() && self.batches@[i as int].batch_hash
                    == h && find_batch(self.batches@, h) == Option::Some(i as int),
                Option::None => find_batch(self.batches@, h) is None,
            },
    {
        let n = self.batches.len();
        let mut i: usize = 0;
        while i < n
            invariant
                i <= n,
                n == self.batches@.len(),
                find_batch(self.batches@, h) == find_batch_from(self.batches@, h, i as int),
            decreases n - i,
        {
            if self.batches[i].batch_hash == h {
                return Some(i);
            }
            i = i + 1;
        }
        None
    }
}

impl CoreState {
    /// Forwards one transaction to the remote core service.  The service's
    /// own mempool and sequencer are out of scope: the call reports only
    /// whether the submission was taken, and a decline passes the
    /// service's reason code through unchanged.
    pub fn send_tx(&self, _tx: &L2Tx, _signature: Option<u64>) -> (r: Result<(), ApiError>)
        ensures
            !self.available ==> r == Err::<(), ApiError>(ApiError::CoreApi),
            self.available && !self.accepts_txs ==> r == Err::<(), ApiError>(
                ApiError::SubmissionRejected(self.reject_code),
            ),
            self.available && self.accepts_txs ==> r == Ok::<(), ApiError>(()),
    {
        if !self.available {
            Err(ApiError::CoreApi)
        } else if !self.accepts_txs {
            Err(ApiError::SubmissionRejected(self.reject_code))
        } else {
            Ok(())
        }
    }

    /// Forwards a batch and its aggregate signature to the remote core
    /// service, under the same contract as `send_tx`.
    pub fn send_txs_batch(&self, _txs: &Vec<L2Tx>, _signature: Option<u64>) -> (r: Result<
        (),
        ApiError,
    >)
        ensures
            !self.available ==> r == Err::<(), ApiError>(ApiError::CoreApi),
            self.available && !self.accepts_txs ==> r == Err::<(), ApiError>(
                ApiError::SubmissionRejected(self.reject_code),
            ),
            self.available && self.accepts_txs ==> r == Ok::<(), ApiError>(()),
    {
        if !self.available {
            Err(ApiError::CoreApi)
        } else if !self.accepts_txs {
            Err(ApiError::SubmissionRejected(self.reject_code))
        } else {
            Ok(())
        }
    }

    /// Asks the remote core service for an operation it has observed but
    /// not yet durably persisted, by sync hash or by chain hash.
    ///
    /// `Err(ApiError::CoreApi)` exactly when the service is unreachable.
    pub fn get_unconfirmed_op(&self, h: u64, by_eth_hash: bool) -> (r: Result<
        Option<PendingPriorityOp>,
        ApiError,
    >)
        ensures
            self.available ==> r == Ok::<_, ApiError>(
                find_unconfirmed_op(self.unconfirmed_ops@, h, by_eth_hash),
            ),
            !self.available ==> r == Err::<Option<PendingPriorityOp>, _>(ApiError::CoreApi),
    {
        if !self.available {
            return Err(ApiError::CoreApi);
        }
        let n = self.unconfirmed_ops.len();
        let mut i: usize = 0;
        while i < n
            invariant
                self.available,
                i <= n,
                n == self.unconfirmed_ops@.len(),
                find_unconfirmed_op(self.unconfirmed_ops@, h, by_eth_hash)
                    == find_unconfirmed_op_from(self.unconfirmed_ops@, h, by_eth_hash, i as int),
            decreases n - i,
        {
            let key = if by_eth_hash {
                self.unconfirmed_ops[i].eth_hash
            } else {
                self.unconfirmed_ops[i].sync_hash
            };
            if key == h {
                return Ok(Some(self.unconfirmed_ops[i]));
            }
            i = i + 1;
        }
        Ok(None)
    }
}

} // verus!
