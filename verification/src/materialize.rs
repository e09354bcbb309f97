//! The transaction materializer: assembles the full transaction payload
//! from a stored record, reusing the status classifier.  Materialization is
//! a projection: it never mutates the source record.

use vstd::prelude::*;

use crate::codec::{spec_decode_l1_op, spec_decode_l2_tx, decode_l1_op, decode_l2_tx};
use crate::hashes::{spec_tx_hash, tx_hash};
use crate::receipt::{classify, spec_classify};
use crate::state::{find_settlement, ExecutedL1Op, ExecutedL2Tx, StorageState};
use crate::types::{
    ApiError, L1Transaction, L2TransactionData, L2Tx, L2TxKind, Transaction, TransactionData,
    TxData, TxInBlockStatus,
};

verus! {

/// Whether a transaction kind settles funds on the originating chain, and
/// so carries an optional settlement transaction hash when materialized.
pub open spec fn spec_needs_settlement(kind: L2TxKind) -> bool {
    kind == L2TxKind::ForcedExit || kind == L2TxKind::Withdraw
}

/// What `tx_data_from_zksync_tx` returns.  For the withdrawing kinds the
/// settlement index is consulted (so an unavailable store is an error); for
/// every other kind the payload passes through unchanged with no lookup.
pub open spec fn spec_tx_data_from_zksync_tx(tx: L2Tx, storage: StorageState) -> Result<
    TransactionData,
    ApiError,
> {
    if spec_needs_settlement(tx.kind) {
        if !storage.available {
            Err(ApiError::Storage)
        } else {
            Ok(
                TransactionData::L2(
                    L2TransactionData {
                        tx,
                        eth_tx_hash: find_settlement(storage.settlements@, spec_tx_hash(tx)),
                    },
                ),
            )
        }
    } else {
        Ok(TransactionData::L2(L2TransactionData { tx, eth_tx_hash: Option::None }))
    }
}

/// Materializes the payload of a typed L2 transaction.
///
/// ForcedExit and Withdraw are enriched with the settlement transaction
/// already produced on the originating chain for this transaction's content
/// hash, if any; all other kinds pass through unchanged.
pub fn tx_data_from_zksync_tx(tx: L2Tx, storage: &StorageState) -> (r: Result<
    TransactionData,
    ApiError,
>)
    ensures
        r == spec_tx_data_from_zksync_tx(tx, *storage),
{
    match tx.kind {
        L2TxKind::ChangePubKey => Ok(
            TransactionData::L2(L2TransactionData { tx, eth_tx_hash: None }),
        ),
        L2TxKind::Close => Ok(TransactionData::L2(L2TransactionData { tx, eth_tx_hash: None })),
        L2TxKind::Transfer => Ok(TransactionData::L2(L2TransactionData { tx, eth_tx_hash: None })),
        L2TxKind::ForcedExit => {
            let h = tx_hash(&tx);
            match storage.eth_tx_for_withdrawal(h) {
                Err(e) => Err(e),
                Ok(eth_tx_hash) => Ok(
                    TransactionData::L2(L2TransactionData { tx, eth_tx_hash }),
                ),
            }
        },
        L2TxKind::Withdraw => {
            let h = tx_hash(&tx);
            match storage.eth_tx_for_withdrawal(h) {
                Err(e) => Err(e),
                Ok(eth_tx_hash) => Ok(
                    TransactionData::L2(L2TransactionData { tx, eth_tx_hash }),
                ),
            }
        },
    }
}

/// What `l1_tx_data_from_op` returns: the stored payload decoded (an
/// unknown shape is a `DataIntegrity` fault) and wrapped into a full
/// record.  An executed L1 operation is included in a block, so its block
/// number is present and its status is Committed or Finalized; L1
/// operations carry no origin signature and no failure reason.
pub open spec fn spec_l1_tx_data_from_op(op: ExecutedL1Op, is_block_finalized: bool) -> Result<
    TxData,
    ApiError,
> {
    match spec_decode_l1_op(op.operation) {
        Err(e) => Err(e),
        Ok(operation) => Ok(
            TxData {
                tx: Transaction {
                    tx_hash: op.tx_hash,
                    block_number: Option::Some(op.block_number),
                    op: TransactionData::L1(
                        L1Transaction {
                            op: operation,
                            eth_hash: op.eth_hash,
                            id: op.priority_op_serialid,
                            tx_hash: op.tx_hash,
                        },
                    ),
                    status: spec_classify(Option::Some(true), is_block_finalized),
                    fail_reason: Option::None,
                    created_at: Option::Some(op.created_at),
                },
                eth_signature: Option::None,
            },
        ),
    }
}

/// Materializes a stored, executed L1 operation into a full record.
pub fn l1_tx_data_from_op(op: ExecutedL1Op, is_block_finalized: bool) -> (r: Result<
    TxData,
    ApiError,
>)
    ensures
        r == spec_l1_tx_data_from_op(op, is_block_finalized),
{
    let operation = match decode_l1_op(op.operation) {
        Err(e) => {
            return Err(e);
        },
        Ok(operation) => operation,
    };
    let status = classify(Some(true), is_block_finalized);
    Ok(
        TxData {
            tx: Transaction {
                tx_hash: op.tx_hash,
                block_number: Some(op.block_number),
                op: TransactionData::L1(
                    L1Transaction {
                        op: operation,
                        eth_hash: op.eth_hash,
                        id: op.priority_op_serialid,
                        tx_hash: op.tx_hash,
                    },
                ),
                status,
                fail_reason: None,
                created_at: Some(op.created_at),
            },
            eth_signature: None,
        },
    )
}

/// What `l2_tx_from_op` returns: the stored payload decoded (an unknown
/// shape is a `DataIntegrity` fault), materialized, and classified from the
/// stored execution outcome and the finalization of the containing block.
pub open spec fn spec_l2_tx_from_op(
    op: ExecutedL2Tx,
    is_block_finalized: bool,
    storage: StorageState,
) -> Result<Transaction, ApiError> {
    match spec_decode_l2_tx(op.tx) {
        Err(e) => Err(e),
        Ok(tx) => match spec_tx_data_from_zksync_tx(tx, storage) {
            Err(e) => Err(e),
            Ok(data) => Ok(
                Transaction {
                    tx_hash: op.tx_hash,
                    block_number: Option::Some(op.block_number),
                    op: data,
                    status: spec_classify(Option::Some(op.success), is_block_finalized),
                    fail_reason: op.fail_reason,
                    created_at: Option::Some(op.created_at),
                },
            ),
        },
    }
}

/// Materializes a stored, executed L2 transaction into a full record.
pub fn l2_tx_from_op(op: ExecutedL2Tx, is_block_finalized: bool, storage: &StorageState) -> (r:
    Result<Transaction, ApiError>)
    ensures
        r == spec_l2_tx_from_op(op, is_block_finalized, *storage),
{
    let tx = match decode_l2_tx(op.tx) {
        Err(e) => {
            return Err(e);
        },
        Ok(tx) => tx,
    };
    let data = match tx_data_from_zksync_tx(tx, storage) {
        Err(e) => {
            return Err(e);
        },
        Ok(data) => data,
    };
    let status = classify(Some(op.success), is_block_finalized);
    Ok(
        Transaction {
            tx_hash: op.tx_hash,
            block_number: Some(op.block_number),
            op: data,
            status,
            fail_reason: op.fail_reason,
            created_at: Some(op.created_at),
        },
    )
}

/// A rejected L2 transaction keeps its Rejected status whatever the
/// finalization of its block says: classification ignores the flag once the
/// outcome is a failure.
pub proof fn lemma_rejected_ignores_finalization(op: ExecutedL2Tx, storage: StorageState)
    requires
        !op.success,
    ensures
        forall|f1: bool, f2: bool|
            #[trigger] spec_l2_tx_from_op(op, f1, storage) == #[trigger] spec_l2_tx_from_op(
                op,
                f2,
                storage,
            ),
{
}

} // verus!
