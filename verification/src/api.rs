//! The resolution orchestrator.
//!
//! Each lookup queries the sources in a fixed precedence order, cheapest
//! and most authoritative first, and stops at the first hit: the finalized
//! L1 store by sync hash, then by chain hash, then the finalized L2 store,
//! then the pending pool, and only when every local source reports nothing
//! the remote core service, by sync hash and then by chain hash — it is
//! the slowest and most remote source, so it is never consulted while a
//! local store can answer.  Only "not found" falls through to the next
//! source; a failed source query is propagated immediately as an error,
//! never masked by falling through.  Nothing found anywhere is `Ok(None)`,
//! not an error.

use vstd::prelude::*;

use crate::codec::{spec_decode_l2_tx, spec_get_sign_bytes, decode_l2_tx, get_sign_bytes, EncodedSignData};
use crate::materialize::{
    l1_tx_data_from_op, l2_tx_from_op, spec_l1_tx_data_from_op, spec_l2_tx_from_op,
    spec_tx_data_from_zksync_tx, tx_data_from_zksync_tx,
};
use crate::receipt::{
    l1_receipt_from_op, l2_receipt_from_response, spec_l1_receipt_from_op,
    spec_l2_receipt_from_response,
};
use crate::state::{
    find_batch, find_l1_op, find_l2_tx, find_mempool_tx, find_unconfirmed_op, spec_is_finalized,
    CoreState, StorageState,
};
use crate::tx_sender::TxSender;
use crate::types::{
    ApiError, ApiTxBatch, L1Receipt, L1Transaction, L2Receipt, Receipt, Transaction,
    TransactionData, TxData, TxInBlockStatus,
};

verus! {

/// The L1 receipt synthesized for an operation known only to the remote
/// core service: Queued, no rollup block yet, the sequential id already
/// assigned at observation time.
pub open spec fn spec_pending_l1_receipt(p: crate::state::PendingPriorityOp) -> L1Receipt {
    L1Receipt {
        status: TxInBlockStatus::Queued,
        eth_block: p.eth_block,
        rollup_block: Option::None,
        id: p.serial_id,
    }
}

/// What resolving an L1 receipt against the finalized store yields: the
/// first match by sync hash, then by chain hash, classified against block
/// finalization; `Ok(None)` when the store holds nothing under either key.
pub open spec fn spec_get_l1_receipt(storage: StorageState, h: u64) -> Result<
    Option<L1Receipt>,
    ApiError,
> {
    if !storage.available {
        Err(ApiError::Storage)
    } else {
        let stored = match find_l1_op(storage.l1_ops@, h, false) {
            Option::Some(op) => Option::Some(op),
            Option::None => find_l1_op(storage.l1_ops@, h, true),
        };
        match stored {
            Option::Some(op) => Ok(
                Option::Some(
                    spec_l1_receipt_from_op(op, spec_is_finalized(storage, op.block_number)),
                ),
            ),
            Option::None => Ok(Option::None),
        }
    }
}

/// What asking the remote core service for a receipt yields: a Queued L1
/// receipt synthesized from the unconfirmed operation it knows under the
/// sync hash or, failing that, the chain hash.
pub open spec fn spec_get_unconfirmed_l1_receipt(core: CoreState, h: u64) -> Result<
    Option<L1Receipt>,
    ApiError,
> {
    if !core.available {
        Err(ApiError::CoreApi)
    } else {
        let pending = match find_unconfirmed_op(core.unconfirmed_ops@, h, false) {
            Option::Some(p) => Option::Some(p),
            Option::None => find_unconfirmed_op(core.unconfirmed_ops@, h, true),
        };
        match pending {
            Option::Some(p) => Ok(Option::Some(spec_pending_l1_receipt(p))),
            Option::None => Ok(Option::None),
        }
    }
}

/// The L2 receipt synthesized for a transaction still in the pending pool:
/// Queued, no rollup block, no failure reason.
pub open spec fn spec_queued_l2_receipt(h: u64) -> L2Receipt {
    L2Receipt {
        tx_hash: h,
        rollup_block: Option::None,
        status: TxInBlockStatus::Queued,
        fail_reason: Option::None,
    }
}

/// What resolving an L2 receipt yields: the finalized L2 store first, then
/// the pool's contains-check, then nothing.
pub open spec fn spec_get_l2_receipt(storage: StorageState, h: u64) -> Result<
    Option<L2Receipt>,
    ApiError,
> {
    if !storage.available {
        Err(ApiError::Storage)
    } else {
        match storage.spec_tx_receipt(h) {
            Option::Some(resp) => Ok(Option::Some(spec_l2_receipt_from_response(resp))),
            Option::None => if find_mempool_tx(storage.mempool@, h) is Some {
                Ok(Option::Some(spec_queued_l2_receipt(h)))
            } else {
                Ok(Option::None)
            },
        }
    }
}

/// What resolving a receipt yields: the finalized L1 store, then the
/// finalized L2 store and the pool, and only when every local source
/// reports nothing the remote core service.
pub open spec fn spec_tx_status(s: TxSender, h: u64) -> Result<Option<Receipt>, ApiError> {
    if !s.pool.available {
        Err(ApiError::Storage)
    } else {
        match spec_get_l1_receipt(s.pool, h) {
            Err(e) => Err(e),
            Ok(Option::Some(receipt)) => Ok(Option::Some(Receipt::L1(receipt))),
            Ok(Option::None) => match spec_get_l2_receipt(s.pool, h) {
                Err(e) => Err(e),
                Ok(Option::Some(receipt)) => Ok(Option::Some(Receipt::L2(receipt))),
                Ok(Option::None) => match spec_get_unconfirmed_l1_receipt(s.core_api_client, h) {
                    Err(e) => Err(e),
                    Ok(Option::Some(receipt)) => Ok(Option::Some(Receipt::L1(receipt))),
                    Ok(Option::None) => Ok(Option::None),
                },
            },
        }
    }
}

/// The full record synthesized for an L1 operation known only to the
/// remote core service: Queued, no block, no timestamp yet, the typed
/// payload as the remote service reports it.
pub open spec fn spec_pending_l1_tx_data(p: crate::state::PendingPriorityOp, h: u64) -> TxData {
    TxData {
        tx: Transaction {
            tx_hash: h,
            block_number: Option::None,
            op: TransactionData::L1(
                L1Transaction { op: p.data, eth_hash: p.eth_hash, id: p.serial_id, tx_hash: h },
            ),
            status: TxInBlockStatus::Queued,
            fail_reason: Option::None,
            created_at: Option::None,
        },
        eth_signature: Option::None,
    }
}

/// What resolving full L1 data against the finalized store yields: the
/// stored payload of the first key match materialized (an undecodable one
/// is a `DataIntegrity` fault); `Ok(None)` when the store holds nothing
/// under either key.
pub open spec fn spec_get_l1_tx_data(storage: StorageState, h: u64) -> Result<
    Option<TxData>,
    ApiError,
> {
    if !storage.available {
        Err(ApiError::Storage)
    } else {
        let stored = match find_l1_op(storage.l1_ops@, h, false) {
            Option::Some(op) => Option::Some(op),
            Option::None => find_l1_op(storage.l1_ops@, h, true),
        };
        match stored {
            Option::Some(op) => match spec_l1_tx_data_from_op(
                op,
                spec_is_finalized(storage, op.block_number),
            ) {
                Err(e) => Err(e),
                Ok(data) => Ok(Option::Some(data)),
            },
            Option::None => Ok(Option::None),
        }
    }
}

/// What asking the remote core service for full data yields: a Queued
/// record synthesized from the unconfirmed operation it knows under the
/// sync hash or, failing that, the chain hash.
pub open spec fn spec_get_unconfirmed_l1_tx_data(core: CoreState, h: u64) -> Result<
    Option<TxData>,
    ApiError,
> {
    if !core.available {
        Err(ApiError::CoreApi)
    } else {
        let pending = match find_unconfirmed_op(core.unconfirmed_ops@, h, false) {
            Option::Some(p) => Option::Some(p),
            Option::None => find_unconfirmed_op(core.unconfirmed_ops@, h, true),
        };
        match pending {
            Option::Some(p) => Ok(Option::Some(spec_pending_l1_tx_data(p, h))),
            Option::None => Ok(Option::None),
        }
    }
}

/// What extracting the optional stored origin signature yields: nothing
/// when none is stored, the packed signature when the stored shape is
/// known, a `DataIntegrity` fault otherwise.
pub open spec fn spec_sign_bytes_opt(e: Option<EncodedSignData>) -> Result<Option<u64>, ApiError> {
    match e {
        Option::None => Ok(Option::None),
        Option::Some(data) => match spec_get_sign_bytes(data) {
            Err(err) => Err(err),
            Ok(s) => Ok(Option::Some(s)),
        },
    }
}

/// What resolving full L2 data yields: the finalized L2 store first (the
/// stored signature extracted, the payload materialized and classified
/// against block finalization), then the pool (a Queued record with the
/// pool's timestamp), then nothing.
pub open spec fn spec_get_l2_tx_data(storage: StorageState, h: u64) -> Result<
    Option<TxData>,
    ApiError,
> {
    if !storage.available {
        Err(ApiError::Storage)
    } else {
        match find_l2_tx(storage.l2_txs@, h) {
            Option::Some(op) => match spec_sign_bytes_opt(op.eth_sign_data) {
                Err(e) => Err(e),
                Ok(eth_signature) => match spec_l2_tx_from_op(
                    op,
                    spec_is_finalized(storage, op.block_number),
                    storage,
                ) {
                    Err(e) => Err(e),
                    Ok(tx) => Ok(Option::Some(TxData { tx, eth_signature })),
                },
            },
            Option::None => match find_mempool_tx(storage.mempool@, h) {
                Option::Some(m) => match spec_decode_l2_tx(m.tx) {
                    Err(e) => Err(e),
                    Ok(tx) => match spec_tx_data_from_zksync_tx(tx, storage) {
                        Err(e) => Err(e),
                        Ok(data) => match spec_sign_bytes_opt(m.eth_sign_data) {
                            Err(e) => Err(e),
                            Ok(eth_signature) => Ok(
                                Option::Some(
                                    TxData {
                                        tx: Transaction {
                                            tx_hash: h,
                                            block_number: Option::None,
                                            op: data,
                                            status: TxInBlockStatus::Queued,
                                            fail_reason: Option::None,
                                            created_at: Option::Some(m.created_at),
                                        },
                                        eth_signature,
                                    },
                                ),
                            ),
                        },
                    },
                },
                Option::None => Ok(Option::None),
            },
        }
    }
}

/// What resolving full data yields: the finalized L1 store, then the
/// finalized L2 store and the pool, and only when every local source
/// reports nothing the remote core service.
pub open spec fn spec_tx_data(s: TxSender, h: u64) -> Result<Option<TxData>, ApiError> {
    if !s.pool.available {
        Err(ApiError::Storage)
    } else {
        match spec_get_l1_tx_data(s.pool, h) {
            Err(e) => Err(e),
            Ok(Option::Some(data)) => Ok(Option::Some(data)),
            Ok(Option::None) => match spec_get_l2_tx_data(s.pool, h) {
                Err(e) => Err(e),
                Ok(Option::Some(data)) => Ok(Option::Some(data)),
                Ok(Option::None) => spec_get_unconfirmed_l1_tx_data(s.core_api_client, h),
            },
        }
    }
}

/// Shared state behind the transaction request surface.
#[derive(Clone, Debug, PartialEq, Eq)]
pub struct ApiTransactionData {
    pub tx_sender: TxSender,
}

impl ApiTransactionData {
    /// Wraps the long-lived service object injected at startup.
    pub fn new(tx_sender: TxSender) -> (data: Self)
        ensures
            data.tx_sender == tx_sender,
    {
        Self { tx_sender }
    }

    /// Resolves the lifecycle receipt of an executed L1 operation from the
    /// finalized store, by sync hash and then by chain hash.
    pub fn get_l1_receipt(&self, storage: &StorageState, tx_hash: u64) -> (r: Result<
        Option<L1Receipt>,
        ApiError,
    >)
        ensures
            r == spec_get_l1_receipt(*storage, tx_hash),
    {
        let op = match storage.get_executed_priority_operation_by_tx_hash(tx_hash) {
            Err(e) => {
                return Err(e);
            },
            Ok(Some(op)) => Some(op),
            Ok(None) => match storage.get_executed_priority_operation_by_eth_hash(tx_hash) {
                Err(e) => {
                    return Err(e);
                },
                Ok(found) => found,
            },
        };
        match op {
            Some(op) => {
                let is_block_finalized = match storage.is_block_finalized(op.block_number) {
                    Err(e) => {
                        return Err(e);
                    },
                    Ok(f) => f,
                };
                Ok(Some(l1_receipt_from_op(op, is_block_finalized)))
            },
            None => Ok(None),
        }
    }

    /// Asks the remote core service — the last source in the precedence
    /// order — for a receipt of an operation not yet indexed locally.
    pub fn get_unconfirmed_l1_receipt(&self, tx_hash: u64) -> (r: Result<
        Option<L1Receipt>,
        ApiError,
    >)
        ensures
            r == spec_get_unconfirmed_l1_receipt(self.tx_sender.core_api_client, tx_hash),
    {
        let core = &self.tx_sender.core_api_client;
        let pending = match core.get_unconfirmed_op(tx_hash, false) {
            Err(e) => {
                return Err(e);
            },
            Ok(Some(p)) => Some(p),
            Ok(None) => match core.get_unconfirmed_op(tx_hash, true) {
                Err(e) => {
                    return Err(e);
                },
                Ok(found) => found,
            },
        };
        match pending {
            Some(p) => Ok(
                Some(
                    L1Receipt {
                        status: TxInBlockStatus::Queued,
                        eth_block: p.eth_block,
                        rollup_block: None,
                        id: p.serial_id,
                    },
                ),
            ),
            None => Ok(None),
        }
    }

    /// Resolves the lifecycle receipt of an L2 transaction.
    pub fn get_l2_receipt(&self, storage: &StorageState, tx_hash: u64) -> (r: Result<
        Option<L2Receipt>,
        ApiError,
    >)
        ensures
            r == spec_get_l2_receipt(*storage, tx_hash),
    {
        match storage.tx_receipt(tx_hash) {
            Err(e) => Err(e),
            Ok(Some(resp)) => Ok(Some(l2_receipt_from_response(resp))),
            Ok(None) => match storage.contains_tx(tx_hash) {
                Err(e) => Err(e),
                Ok(true) => Ok(
                    Some(
                        L2Receipt {
                            tx_hash,
                            rollup_block: None,
                            status: TxInBlockStatus::Queued,
                            fail_reason: None,
                        },
                    ),
                ),
                Ok(false) => Ok(None),
            },
        }
    }

    /// Resolves the lifecycle receipt of a transaction named by either of
    /// its identifier spaces: the finalized stores and the pool first, the
    /// remote core service only when all of them report nothing.
    pub fn tx_status(&self, tx_hash: u64) -> (r: Result<Option<Receipt>, ApiError>)
        ensures
            r == spec_tx_status(self.tx_sender, tx_hash),
    {
        if !self.tx_sender.pool.available {
            return Err(ApiError::Storage);
        }
        let storage = &self.tx_sender.pool;
        match self.get_l1_receipt(storage, tx_hash) {
            Err(e) => Err(e),
            Ok(Some(receipt)) => Ok(Some(Receipt::L1(receipt))),
            Ok(None) => match self.get_l2_receipt(storage, tx_hash) {
                Err(e) => Err(e),
                Ok(Some(receipt)) => Ok(Some(Receipt::L2(receipt))),
                Ok(None) => match self.get_unconfirmed_l1_receipt(tx_hash) {
                    Err(e) => Err(e),
                    Ok(Some(receipt)) => Ok(Some(Receipt::L1(receipt))),
                    Ok(None) => Ok(None),
                },
            },
        }
    }

    /// Resolves the full record of an executed L1 operation from the
    /// finalized store, by sync hash and then by chain hash.
    pub fn get_l1_tx_data(&self, storage: &StorageState, tx_hash: u64) -> (r: Result<
        Option<TxData>,
        ApiError,
    >)
        ensures
            r == spec_get_l1_tx_data(*storage, tx_hash),
    {
        let op = match storage.get_executed_priority_operation_by_tx_hash(tx_hash) {
            Err(e) => {
                return Err(e);
            },
            Ok(Some(op)) => Some(op),
            Ok(None) => match storage.get_executed_priority_operation_by_eth_hash(tx_hash) {
                Err(e) => {
                    return Err(e);
                },
                Ok(found) => found,
            },
        };
        match op {
            Some(op) => {
                let is_block_finalized = match storage.is_block_finalized(op.block_number) {
                    Err(e) => {
                        return Err(e);
                    },
                    Ok(f) => f,
                };
                match l1_tx_data_from_op(op, is_block_finalized) {
                    Err(e) => Err(e),
                    Ok(data) => Ok(Some(data)),
                }
            },
            None => Ok(None),
        }
    }

    /// Asks the remote core service — the last source in the precedence
    /// order — for the full record of an operation not yet indexed
    /// locally.
    pub fn get_unconfirmed_l1_tx_data(&self, tx_hash: u64) -> (r: Result<Option<TxData>, ApiError>)
        ensures
            r == spec_get_unconfirmed_l1_tx_data(self.tx_sender.core_api_client, tx_hash),
    {
        let core = &self.tx_sender.core_api_client;
        let pending = match core.get_unconfirmed_op(tx_hash, false) {
            Err(e) => {
                return Err(e);
            },
            Ok(Some(p)) => Some(p),
            Ok(None) => match core.get_unconfirmed_op(tx_hash, true) {
                Err(e) => {
                    return Err(e);
                },
                Ok(found) => found,
            },
        };
        match pending {
            Some(p) => Ok(
                Some(
                    TxData {
                        tx: Transaction {
                            tx_hash,
                            block_number: None,
                            op: TransactionData::L1(
                                L1Transaction {
                                    op: p.data,
                                    eth_hash: p.eth_hash,
                                    id: p.serial_id,
                                    tx_hash,
                                },
                            ),
                            status: TxInBlockStatus::Queued,
                            fail_reason: None,
                            created_at: None,
                        },
                        eth_signature: None,
                    },
                ),
            ),
            None => Ok(None),
        }
    }

    /// Resolves the full record of an L2 transaction.
    pub fn get_l2_tx_data(&self, storage: &StorageState, tx_hash: u64) -> (r: Result<
        Option<TxData>,
        ApiError,
    >)
        ensures
            r == spec_get_l2_tx_data(*storage, tx_hash),
    {
        let op = match storage.get_executed_operation(tx_hash) {
            Err(e) => {
                return Err(e);
            },
            Ok(found) => found,
        };
        match op {
            Some(op) => {
                let eth_signature = match op.eth_sign_data {
                    None => None,
                    Some(data) => match get_sign_bytes(data) {
                        Err(e) => {
                            return Err(e);
                        },
                        Ok(s) => Some(s),
                    },
                };
                let is_block_finalized = match storage.is_block_finalized(op.block_number) {
                    Err(e) => {
                        return Err(e);
                    },
                    Ok(f) => f,
                };
                match l2_tx_from_op(op, is_block_finalized, storage) {
                    Err(e) => Err(e),
                    Ok(tx) => Ok(Some(TxData { tx, eth_signature })),
                }
            },
            None => {
                let pending = match storage.get_mempool_tx(tx_hash) {
                    Err(e) => {
                        return Err(e);
                    },
                    Ok(found) => found,
                };
                match pending {
                    Some(m) => {
                        let tx = match decode_l2_tx(m.tx) {
                            Err(e) => {
                                return Err(e);
                            },
                            Ok(tx) => tx,
                        };
                        let data = match tx_data_from_zksync_tx(tx, storage) {
                            Err(e) => {
                                return Err(e);
                            },
                            Ok(data) => data,
                        };
                        let eth_signature = match m.eth_sign_data {
                            None => None,
                            Some(sign_data) => match get_sign_bytes(sign_data) {
                                Err(e) => {
                                    return Err(e);
                                },
                                Ok(s) => Some(s),
                            },
                        };
                        Ok(
                            Some(
                                TxData {
                                    tx: Transaction {
                                        tx_hash,
                                        block_number: None,
                                        op: data,
                                        status: TxInBlockStatus::Queued,
                                        fail_reason: None,
                                        created_at: Some(m.created_at),
                                    },
                                    eth_signature,
                                },
                            ),
                        )
                    },
                    None => Ok(None),
                }
            },
        }
    }

    /// Resolves the full record of a transaction named by either of its
    /// identifier spaces: the finalized stores and the pool first, the
    /// remote core service only when all of them report nothing.
    pub fn tx_data(&self, tx_hash: u64) -> (r: Result<Option<TxData>, ApiError>)
        ensures
            r == spec_tx_data(self.tx_sender, tx_hash),
    {
        if !self.tx_sender.pool.available {
            return Err(ApiError::Storage);
        }
        let storage = &self.tx_sender.pool;
        match self.get_l1_tx_data(storage, tx_hash) {
            Err(e) => Err(e),
            Ok(Some(data)) => Ok(Some(data)),
            Ok(None) => match self.get_l2_tx_data(storage, tx_hash) {
                Err(e) => Err(e),
                Ok(Some(data)) => Ok(Some(data)),
                Ok(None) => self.get_unconfirmed_l1_tx_data(tx_hash),
            },
        }
    }

    /// Fetches the aggregate information of a stored batch.
    pub fn get_batch(&self, batch_hash: u64) -> (r: Result<Option<ApiTxBatch>, ApiError>)
        ensures
            !self.tx_sender.pool.available ==> r == Err::<Option<ApiTxBatch>, ApiError>(
                ApiError::Storage,
            ),
            self.tx_sender.pool.available ==> match find_batch(
                self.tx_sender.pool.batches@,
                batch_hash,
            ) {
                Option::None => r == Ok::<Option<ApiTxBatch>, ApiError>(Option::None),
                Option::Some(i) => match r {
                    Ok(Option::Some(api)) => {
                        let stored = self.tx_sender.pool.batches@[i];
                        api.batch_hash == stored.batch_hash && api.transaction_hashes@
                            == stored.transaction_hashes@ && api.created_at == stored.created_at
                            && api.batch_status == crate::batch::spec_batch_status(
                            self.tx_sender.pool,
                            stored.transaction_hashes@,
                        )
                    },
                    _ => false,
                },
            },
    {
        self.tx_sender.pool.get_batch_info(batch_hash)
    }
}

} // verus!
