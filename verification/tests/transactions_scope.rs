//! End-to-end exercise of the transaction request surface: submission,
//! batch submission, batch info, receipts for executed and pending
//! transactions, and the not-found outcome.

use zksync_tx_api::api::ApiTransactionData;
use zksync_tx_api::hashes::{batch_hash, tx_hash};
use zksync_tx_api::state::{CoreState, ExecutedL2Tx, StorageState};
use zksync_tx_api::tx_sender::TxSender;
use zksync_tx_api::types::{
    L2Receipt, L2Tx, L2TxKind, Receipt, SubmitBatchResponse, TxInBlockStatus,
};

fn empty_pool() -> StorageState {
    StorageState {
        available: true,
        l1_ops: vec![],
        l2_txs: vec![],
        mempool: vec![],
        last_finalized_block: 0,
        settlements: vec![],
        batches: vec![],
        clock: 1000,
    }
}

fn open_core() -> CoreState {
    CoreState { available: true, accepts_txs: true, reject_code: 0, unconfirmed_ops: vec![] }
}

fn transfer(account: u64, amount: u64, nonce: u64) -> L2Tx {
    L2Tx { kind: L2TxKind::Transfer, account, token: 0, amount, nonce }
}

#[test]
fn transactions_scope() {
    let sender = TxSender { pool: empty_pool(), core_api_client: open_core() };
    let mut data = ApiTransactionData::new(sender);

    // Submitting one transaction returns its self-computed content hash.
    let tx = transfer(1, 100, 0);
    let submitted = data.tx_sender.submit_tx(tx, None).unwrap();
    assert_eq!(submitted, tx_hash(&tx));

    // Submitting a batch returns every member hash in submission order and
    // the batch hash computed over that ordered sequence.
    let batch: Vec<L2Tx> = vec![transfer(2, 10, 0), transfer(2, 20, 1), transfer(2, 30, 2)];
    let expected_hashes: Vec<u64> = batch.iter().map(tx_hash).collect();
    let expected_batch_hash = batch_hash(&expected_hashes);
    let expected_response = SubmitBatchResponse {
        transaction_hashes: expected_hashes.clone(),
        batch_hash: expected_batch_hash,
    };
    let response = data.tx_sender.submit_txs_batch(batch, Some(77)).unwrap();
    assert_eq!(response, expected_response);

    // Fetching the batch finds the same members in the same order, still
    // queued.
    let info = data.get_batch(response.batch_hash).unwrap().unwrap();
    assert_eq!(info.batch_hash, response.batch_hash);
    assert_eq!(info.transaction_hashes, response.transaction_hashes);
    assert_eq!(info.batch_status, TxInBlockStatus::Queued);

    // A transaction executed in a finalized block reports Finalized.
    let executed = transfer(3, 50, 0);
    let executed_hash = tx_hash(&executed);
    data.tx_sender.pool.l2_txs.push(ExecutedL2Tx {
        tx_hash: executed_hash,
        block_number: 1,
        success: true,
        fail_reason: None,
        tx: zksync_tx_api::codec::encode_l2_tx(executed),
        created_at: 500,
        eth_sign_data: None,
    });
    data.tx_sender.pool.last_finalized_block = 1;
    let status = data.tx_status(executed_hash).unwrap().unwrap();
    let expected_status = Receipt::L2(L2Receipt {
        tx_hash: executed_hash,
        rollup_block: Some(1),
        status: TxInBlockStatus::Finalized,
        fail_reason: None,
    });
    assert_eq!(status, expected_status);
    let full = data.tx_data(executed_hash).unwrap().unwrap();
    assert_eq!(full.tx.tx_hash, executed_hash);

    // A transaction still in the pool reports Queued with no block number.
    let pending = transfer(4, 5, 0);
    let pending_hash = data.tx_sender.submit_tx(pending, None).unwrap();
    let status = data.tx_status(pending_hash).unwrap().unwrap();
    let expected_status = Receipt::L2(L2Receipt {
        tx_hash: pending_hash,
        rollup_block: None,
        status: TxInBlockStatus::Queued,
        fail_reason: None,
    });
    assert_eq!(status, expected_status);
    let full = data.tx_data(pending_hash).unwrap().unwrap();
    assert_eq!(full.tx.tx_hash, pending_hash);

    // A transaction never submitted resolves to "not found".
    let unknown = transfer(9, 9, 9);
    assert!(data.tx_data(tx_hash(&unknown)).unwrap().is_none());
}
