//! Batch aggregation: the batch hash commits to the ordered member
//! sequence, and the batch status is the minimum lifecycle status over the
//! members, with a rejected member rejecting the batch.

use zksync_tx_api::api::ApiTransactionData;
use zksync_tx_api::codec::encode_l2_tx;
use zksync_tx_api::hashes::{batch_hash, tx_hash};
use zksync_tx_api::state::{CoreState, ExecutedL2Tx, StorageState};
use zksync_tx_api::tx_sender::TxSender;
use zksync_tx_api::types::{L2Tx, L2TxKind, TxInBlockStatus};

fn empty_pool() -> StorageState {
    StorageState {
        available: true,
        l1_ops: vec![],
        l2_txs: vec![],
        mempool: vec![],
        last_finalized_block: 0,
        settlements: vec![],
        batches: vec![],
        clock: 1000,
    }
}

fn open_core() -> CoreState {
    CoreState { available: true, accepts_txs: true, reject_code: 0, unconfirmed_ops: vec![] }
}

fn fresh_data() -> ApiTransactionData {
    ApiTransactionData::new(TxSender { pool: empty_pool(), core_api_client: open_core() })
}

fn transfer(account: u64, amount: u64, nonce: u64) -> L2Tx {
    L2Tx { kind: L2TxKind::Transfer, account, token: 0, amount, nonce }
}

fn executed(tx: L2Tx, block: u32, success: bool, fail_reason: Option<u64>) -> ExecutedL2Tx {
    ExecutedL2Tx {
        tx_hash: tx_hash(&tx),
        block_number: block,
        success,
        fail_reason,
        tx: encode_l2_tx(tx),
        created_at: 500,
        eth_sign_data: None,
    }
}

#[test]
fn batch_hash_commits_to_member_order() {
    let a = tx_hash(&transfer(1, 10, 0));
    let b = tx_hash(&transfer(1, 20, 1));
    assert_ne!(batch_hash(&vec![a, b]), batch_hash(&vec![b, a]));
    assert_eq!(batch_hash(&vec![a, b]), batch_hash(&vec![a, b]));
}

#[test]
fn submitted_batch_reports_members_in_submission_order() {
    let mut data = fresh_data();
    let txs: Vec<L2Tx> = (0..5).map(|n| transfer(1, 10 + n, n)).collect();
    let expected: Vec<u64> = txs.iter().map(tx_hash).collect();
    let response = data.tx_sender.submit_txs_batch(txs, None).unwrap();
    assert_eq!(response.transaction_hashes, expected);
    assert_eq!(response.batch_hash, batch_hash(&expected));

    let info = data.get_batch(response.batch_hash).unwrap().unwrap();
    assert_eq!(info.transaction_hashes.len(), 5);
    assert_eq!(info.transaction_hashes, expected);
    assert_eq!(info.batch_hash, response.batch_hash);
    assert_eq!(info.batch_status, TxInBlockStatus::Queued);
}

#[test]
fn batch_status_is_minimum_over_members() {
    let mut data = fresh_data();
    let t1 = transfer(2, 1, 0);
    let t2 = transfer(2, 2, 1);
    let t3 = transfer(2, 3, 2);
    let response = data.tx_sender.submit_txs_batch(vec![t1, t2, t3], None).unwrap();

    // One member finalized, one committed, one still queued: Queued.
    data.tx_sender.pool.l2_txs.push(executed(t1, 1, true, None));
    data.tx_sender.pool.l2_txs.push(executed(t2, 2, true, None));
    data.tx_sender.pool.last_finalized_block = 1;
    let info = data.get_batch(response.batch_hash).unwrap().unwrap();
    assert_eq!(info.batch_status, TxInBlockStatus::Queued);

    // The last member committed too: the least-advanced is Committed.
    data.tx_sender.pool.l2_txs.push(executed(t3, 2, true, None));
    let info = data.get_batch(response.batch_hash).unwrap().unwrap();
    assert_eq!(info.batch_status, TxInBlockStatus::Committed);

    // Every block finalized: Finalized.
    data.tx_sender.pool.last_finalized_block = 2;
    let info = data.get_batch(response.batch_hash).unwrap().unwrap();
    assert_eq!(info.batch_status, TxInBlockStatus::Finalized);
}

#[test]
fn rejected_member_rejects_the_batch() {
    let mut data = fresh_data();
    let t1 = transfer(3, 1, 0);
    let t2 = transfer(3, 2, 1);
    let response = data.tx_sender.submit_txs_batch(vec![t1, t2], None).unwrap();

    data.tx_sender.pool.l2_txs.push(executed(t1, 1, true, None));
    data.tx_sender.pool.l2_txs.push(executed(t2, 1, false, Some(5)));
    data.tx_sender.pool.last_finalized_block = 1;

    let info = data.get_batch(response.batch_hash).unwrap().unwrap();
    assert_eq!(info.batch_status, TxInBlockStatus::Rejected);
}

#[test]
fn empty_batch_round_trips() {
    let mut data = fresh_data();
    let response = data.tx_sender.submit_txs_batch(vec![], None).unwrap();
    assert!(response.transaction_hashes.is_empty());
    let info = data.get_batch(response.batch_hash).unwrap().unwrap();
    assert!(info.transaction_hashes.is_empty());
    assert_eq!(info.batch_status, TxInBlockStatus::Queued);
}

#[test]
fn unknown_batch_is_not_found() {
    let data = fresh_data();
    assert_eq!(data.get_batch(4242), Ok(None));
}
