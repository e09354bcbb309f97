//! The submission gateway.
//!
//! A submission is forwarded to the remote core service first and then
//! recorded in the pending pool.  The identifier handed back is the
//! self-computed content hash of the input, never whatever the remote side
//! echoes, so a client can detect a hash mismatch as a distinct fault.  For
//! a batch, every member hash and the batch hash are computed locally
//! before forwarding, and the member order is preserved: the batch hash
//! commits to the ordered sequence.

use vstd::prelude::*;

use crate::codec::{spec_encode_l2_tx, encode_l2_tx, EncodedSignData};
use crate::hashes::{batch_hash, spec_batch_hash, spec_tx_hash, tx_hash};
use crate::state::{CoreState, MempoolTx, StorageState, StoredBatch};
use crate::types::{ApiError, L2Tx, SubmitBatchResponse};

verus! {

/// The content hashes of a sequence of transactions, in the same order.
pub open spec fn spec_batch_hashes(txs: Seq<L2Tx>) -> Seq<u64> {
    txs.map_values(|t: L2Tx| spec_tx_hash(t))
}

/// The pool record written for one accepted transaction: its content hash,
/// its encoded payload, the store's clock as creation timestamp, and the
/// origin signature if one was handed in.
pub open spec fn spec_pool_record(tx: L2Tx, signature: Option<u64>, clock: u64) -> MempoolTx {
    MempoolTx {
        tx_hash: spec_tx_hash(tx),
        tx: spec_encode_l2_tx(tx),
        created_at: clock,
        eth_sign_data: match signature {
            Option::None => Option::None,
            Option::Some(s) => Option::Some(EncodedSignData { tag: 0, signature: s }),
        },
    }
}

/// The pool records written for the members of an accepted batch, in
/// submission order.  Members of a batch carry no individual signature:
/// the batch signature stands for all of them.
pub open spec fn spec_pool_records(txs: Seq<L2Tx>, clock: u64) -> Seq<MempoolTx> {
    txs.map_values(|t: L2Tx| spec_pool_record(t, Option::None, clock))
}

/// The store fields an insert into the pending pool never touches: all of
/// them except the pool itself and the batch records.
pub open spec fn spec_pool_inserts_only(before: StorageState, after: StorageState) -> bool {
    before.available == after.available && before.l1_ops == after.l1_ops && before.l2_txs
        == after.l2_txs && before.last_finalized_block == after.last_finalized_block
        && before.settlements == after.settlements && before.clock == after.clock
}

impl StorageState {
    /// Records one accepted transaction in the pending pool.
    ///
    /// Appends the record and touches nothing else; fails exactly when the
    /// store is unavailable, leaving the state unchanged.
    pub fn insert_tx(&mut self, record: MempoolTx) -> (r: Result<(), ApiError>)
        ensures
            !old(self).available ==> r == Err::<(), ApiError>(ApiError::Storage) && *final(self)
                == *old(self),
            old(self).available ==> r == Ok::<(), ApiError>(()),
            old(self).available ==> final(self).mempool@ == old(self).mempool@.push(record),
            old(self).available ==> final(self).batches == old(self).batches,
            old(self).available ==> spec_pool_inserts_only(*old(self), *final(self)),
    {
        if !self.available {
            return Err(ApiError::Storage);
        }
        self.mempool.push(record);
        Ok(())
    }

    /// Records an accepted batch in the pending pool: every member record
    /// appended in order, then the batch record.
    ///
    /// Fails exactly when the store is unavailable, leaving the state
    /// unchanged.
    pub fn insert_batch(&mut self, records: Vec<MempoolTx>, batch: StoredBatch) -> (r: Result<
        (),
        ApiError,
    >)
        ensures
            !old(self).available ==> r == Err::<(), ApiError>(ApiError::Storage) && *final(self)
                == *old(self),
            old(self).available ==> r == Ok::<(), ApiError>(()),
            old(self).available ==> final(self).mempool@ == old(self).mempool@ + records@,
            old(self).available ==> final(self).batches@ == old(self).batches@.push(batch),
            old(self).available ==> spec_pool_inserts_only(*old(self), *final(self)),
    {
        if !self.available {
            return Err(ApiError::Storage);
        }
        let mut records = records;
        self.mempool.append(&mut records);
        self.batches.push(batch);
        Ok(())
    }
}

/// The long-lived service object behind the request surface: the pool and
/// store handle and the remote core service client.  It is configured once
/// at startup; all mutation happens inside the collaborators it points to.
#[derive(Clone, Debug, PartialEq, Eq)]
pub struct TxSender {
    pub pool: StorageState,
    pub core_api_client: CoreState,
}

/// Whether a submission goes through: the remote core service is reachable
/// and accepting, and the pool that records the accepted submission is
/// available.
pub open spec fn spec_submission_accepted(s: TxSender) -> bool {
    s.core_api_client.available && s.core_api_client.accepts_txs && s.pool.available
}

/// The error a failed submission reports, by precedence of the calls the
/// gateway makes: the unreachable remote service first, then its decline
/// with the reason code passed through unchanged, then the pool.
pub open spec fn spec_submission_error(s: TxSender) -> ApiError {
    if !s.core_api_client.available {
        ApiError::CoreApi
    } else if !s.core_api_client.accepts_txs {
        ApiError::SubmissionRejected(s.core_api_client.reject_code)
    } else {
        ApiError::Storage
    }
}

impl TxSender {
    /// Submits one transaction: forwards it to the remote core service,
    /// records it in the pool, and returns its self-computed content hash.
    ///
    /// Success is owed exactly when the remote service is reachable and
    /// accepting and the pool is available; any failure leaves every
    /// collaborator unchanged and names its source.
    pub fn submit_tx(&mut self, tx: L2Tx, signature: Option<u64>) -> (r: Result<u64, ApiError>)
        ensures
            !spec_submission_accepted(*old(self)) ==> r == Err::<u64, ApiError>(
                spec_submission_error(*old(self)),
            ) && *final(self) == *old(self),
            spec_submission_accepted(*old(self)) ==> r == Ok::<u64, ApiError>(spec_tx_hash(tx)),
            spec_submission_accepted(*old(self)) ==> final(self).pool.mempool@ == old(
                self,
            ).pool.mempool@.push(spec_pool_record(tx, signature, old(self).pool.clock)),
            spec_submission_accepted(*old(self)) ==> final(self).pool.batches == old(
                self,
            ).pool.batches,
            spec_submission_accepted(*old(self)) ==> spec_pool_inserts_only(
                old(self).pool,
                final(self).pool,
            ) && final(self).core_api_client == old(self).core_api_client,
    {
        match self.core_api_client.send_tx(&tx, signature) {
            Err(e) => {
                return Err(e);
            },
            Ok(()) => {},
        }
        let h = tx_hash(&tx);
        let record = MempoolTx {
            tx_hash: h,
            tx: encode_l2_tx(tx),
            created_at: self.pool.clock,
            eth_sign_data: match signature {
                None => None,
                Some(s) => Some(EncodedSignData { tag: 0, signature: s }),
            },
        };
        match self.pool.insert_tx(record) {
            Err(e) => Err(e),
            Ok(()) => Ok(h),
        }
    }

    /// Submits a batch: computes every member hash and the batch hash
    /// locally, forwards the batch to the remote core service, records the
    /// members and the batch in the pool, and returns the member hashes in
    /// submission order together with the batch hash.
    ///
    /// Success is owed exactly when the remote service is reachable and
    /// accepting and the pool is available; any failure leaves every
    /// collaborator unchanged and names its source.
    pub fn submit_txs_batch(&mut self, txs: Vec<L2Tx>, signature: Option<u64>) -> (r: Result<
        SubmitBatchResponse,
        ApiError,
    >)
        ensures
            !spec_submission_accepted(*old(self)) ==> r == Err::<SubmitBatchResponse, ApiError>(
                spec_submission_error(*old(self)),
            ) && *final(self) == *old(self),
            spec_submission_accepted(*old(self)) ==> (match r {
                Ok(resp) => resp.transaction_hashes@ == spec_batch_hashes(txs@) && resp.batch_hash
                    == spec_batch_hash(spec_batch_hashes(txs@)),
                Err(_) => false,
            }),
            spec_submission_accepted(*old(self)) ==> final(self).pool.mempool@ == old(
                self,
            ).pool.mempool@ + spec_pool_records(txs@, old(self).pool.clock),
            spec_submission_accepted(*old(self)) ==> final(self).pool.batches@.len() == old(
                self,
            ).pool.batches@.len() + 1,
            spec_submission_accepted(*old(self)) ==> final(self).pool.batches@.subrange(
                0,
                old(self).pool.batches@.len() as int,
            ) == old(self).pool.batches@,
            spec_submission_accepted(*old(self)) ==> (
            {
                let stored = final(self).pool.batches@.last();
                stored.batch_hash == spec_batch_hash(spec_batch_hashes(txs@))
                    && stored.transaction_hashes@ == spec_batch_hashes(txs@) && stored.created_at
                    == old(self).pool.clock && stored.signature == signature
            }),
            spec_submission_accepted(*old(self)) ==> spec_pool_inserts_only(
                old(self).pool,
                final(self).pool,
            ) && final(self).core_api_client == old(self).core_api_client,
    {
        match self.core_api_client.send_txs_batch(&txs, signature) {
            Err(e) => {
                return Err(e);
            },
            Ok(()) => {},
        }
        let n = txs.len();
        let ghost clock = self.pool.clock;
        let mut hashes: Vec<u64> = Vec::new();
        let mut records: Vec<MempoolTx> = Vec::new();
        let mut i: usize = 0;
        while i < n
            invariant
                i <= n,
                n == txs@.len(),
                clock == self.pool.clock,
                hashes@ == spec_batch_hashes(txs@.subrange(0, i as int)),
                records@ == spec_pool_records(txs@.subrange(0, i as int), clock),
            decreases n - i,
        {
            let t = txs[i];
            let h = tx_hash(&t);
            let record = MempoolTx {
                tx_hash: h,
                tx: encode_l2_tx(t),
                created_at: self.pool.clock,
                eth_sign_data: None,
            };
            hashes.push(h);
            records.push(record);
            i = i + 1;
            proof {
                assert(hashes@ =~= spec_batch_hashes(txs@.subrange(0, i as int)));
                assert(records@ =~= spec_pool_records(txs@.subrange(0, i as int), clock));
            }
        }
        proof {
            assert(txs@.subrange(0, n as int) =~= txs@);
        }
        let bh = batch_hash(&hashes);
        let stored_hashes = crate::batch::copy_hashes(&hashes);
        let batch = StoredBatch {
            batch_hash: bh,
            transaction_hashes: stored_hashes,
            created_at: self.pool.clock,
            signature,
        };
        match self.pool.insert_batch(records, batch) {
            Err(e) => Err(e),
            Ok(()) => {
                proof {
                    assert(final(self).pool.batches@.subrange(0, old(self).pool.batches@.len() as int)
                        =~= old(self).pool.batches@);
                }
                Ok(SubmitBatchResponse { transaction_hashes: hashes, batch_hash: bh })
            },
        }
    }
}

} // verus!
