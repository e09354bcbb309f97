//! The status classifier and the receipt builders.

use vstd::prelude::*;

use crate::types::{L1Receipt, L2Receipt, TxInBlockStatus};

verus! {

/// What `classify` returns: the single rule mapping a record's execution
/// outcome and the finalization of its block to a lifecycle status.
///
/// - No execution outcome yet (a pending, unconfirmed operation): Queued.
/// - Failed execution: Rejected, whatever the finalization flag says.
/// - Successful execution: Finalized once the containing block is
///   irreversible, Committed before that.
pub open spec fn spec_classify(success: Option<bool>, block_finalized: bool) -> TxInBlockStatus {
    match success {
        Option::None => TxInBlockStatus::Queued,
        Option::Some(false) => TxInBlockStatus::Rejected,
        Option::Some(true) => if block_finalized {
            TxInBlockStatus::Finalized
        } else {
            TxInBlockStatus::Committed
        },
    }
}

/// Pure status classifier: `success` is the record's execution outcome
/// (`None` while no outcome is known), `block_finalized` tells whether the
/// containing block is irreversible.
pub fn classify(success: Option<bool>, block_finalized: bool) -> (status: TxInBlockStatus)
    ensures
        status == spec_classify(success, block_finalized),
{
    match success {
        Option::None => TxInBlockStatus::Queued,
        Option::Some(false) => TxInBlockStatus::Rejected,
        Option::Some(true) => if block_finalized {
            TxInBlockStatus::Finalized
        } else {
            TxInBlockStatus::Committed
        },
    }
}

/// What `l1_receipt_from_op` returns for an executed L1 operation.  The
/// operation is included in a sequenced block, so its status is Committed or
/// Finalized and the rollup block number is always present.
pub open spec fn spec_l1_receipt_from_op(
    op: crate::state::ExecutedL1Op,
    is_block_finalized: bool,
) -> L1Receipt {
    L1Receipt {
        status: spec_classify(Option::Some(true), is_block_finalized),
        eth_block: op.eth_block,
        rollup_block: Option::Some(op.block_number),
        id: op.priority_op_serialid,
    }
}

/// Builds the lifecycle receipt of an executed (stored) L1 operation.
pub fn l1_receipt_from_op(
    op: crate::state::ExecutedL1Op,
    is_block_finalized: bool,
) -> (receipt: L1Receipt)
    ensures
        receipt == spec_l1_receipt_from_op(op, is_block_finalized),
{
    let status = classify(Option::Some(true), is_block_finalized);
    L1Receipt {
        status,
        eth_block: op.eth_block,
        rollup_block: Option::Some(op.block_number),
        id: op.priority_op_serialid,
    }
}

/// What `l2_receipt_from_response` returns: the stored execution outcome and
/// the verification flag of the containing block, classified.
pub open spec fn spec_l2_receipt_from_response(
    receipt: crate::state::TxReceiptResponse,
) -> L2Receipt {
    L2Receipt {
        tx_hash: receipt.tx_hash,
        rollup_block: Option::Some(receipt.block_number),
        status: spec_classify(Option::Some(receipt.success), receipt.verified),
        fail_reason: receipt.fail_reason,
    }
}

/// Builds the lifecycle receipt of an executed (stored) L2 transaction from
/// the store's receipt response.
pub fn l2_receipt_from_response(receipt: crate::state::TxReceiptResponse) -> (r: L2Receipt)
    ensures
        r == spec_l2_receipt_from_response(receipt),
{
    let status = classify(Option::Some(receipt.success), receipt.verified);
    L2Receipt {
        tx_hash: receipt.tx_hash,
        rollup_block: Option::Some(receipt.block_number),
        status,
        fail_reason: receipt.fail_reason,
    }
}

} // verus!
