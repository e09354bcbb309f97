//! Lifecycle scenarios: progression from Queued through Committed to
//! Finalized, rejection, L1 operations, the error taxonomy, and
//! idempotence of resolution.

use zksync_tx_api::api::ApiTransactionData;
use zksync_tx_api::codec::{encode_l2_tx, EncodedL1Op, EncodedSignData};
use zksync_tx_api::hashes::tx_hash;
use zksync_tx_api::state::{
    CoreState, ExecutedL1Op, ExecutedL2Tx, PendingPriorityOp, SettlementRecord, StorageState,
};
use zksync_tx_api::tx_sender::TxSender;
use zksync_tx_api::types::{
    ApiError, L1Op, L1OpKind, L2Tx, L2TxKind, Receipt, TransactionData, TxInBlockStatus,
};

fn empty_pool() -> StorageState {
    StorageState {
        available: true,
        l1_ops: vec![],
        l2_txs: vec![],
        mempool: vec![],
        last_finalized_block: 0,
        settlements: vec![],
        batches: vec![],
        clock: 1000,
    }
}

fn open_core() -> CoreState {
    CoreState { available: true, accepts_txs: true, reject_code: 0, unconfirmed_ops: vec![] }
}

fn fresh_data() -> ApiTransactionData {
    ApiTransactionData::new(TxSender { pool: empty_pool(), core_api_client: open_core() })
}

fn transfer(account: u64, amount: u64, nonce: u64) -> L2Tx {
    L2Tx { kind: L2TxKind::Transfer, account, token: 0, amount, nonce }
}

fn executed(tx: L2Tx, block: u32, success: bool, fail_reason: Option<u64>) -> ExecutedL2Tx {
    ExecutedL2Tx {
        tx_hash: tx_hash(&tx),
        block_number: block,
        success,
        fail_reason,
        tx: encode_l2_tx(tx),
        created_at: 500,
        eth_sign_data: None,
    }
}

#[test]
fn unknown_identifier_is_not_found_everywhere() {
    let data = fresh_data();
    assert_eq!(data.tx_status(123), Ok(None));
    assert_eq!(data.tx_data(123), Ok(None));
}

#[test]
fn resolution_is_idempotent_without_state_change() {
    let mut data = fresh_data();
    let h = data.tx_sender.submit_tx(transfer(1, 10, 0), Some(9)).unwrap();
    assert_eq!(data.tx_status(h), data.tx_status(h));
    assert_eq!(data.tx_data(h), data.tx_data(h));
}

#[test]
fn lifecycle_progression_queued_committed_finalized() {
    let mut data = fresh_data();
    let tx = transfer(1, 10, 0);
    let h = data.tx_sender.submit_tx(tx, None).unwrap();

    // Before any block is sequenced: Queued, no block number.
    match data.tx_status(h).unwrap().unwrap() {
        Receipt::L2(r) => {
            assert_eq!(r.status, TxInBlockStatus::Queued);
            assert_eq!(r.rollup_block, None);
        }
        Receipt::L1(_) => panic!("an L2 transaction resolved through the L1 path"),
    }

    // Included in block 1, block 1 not yet finalized: Committed, block 1.
    data.tx_sender.pool.mempool.clear();
    data.tx_sender.pool.l2_txs.push(executed(tx, 1, true, None));
    match data.tx_status(h).unwrap().unwrap() {
        Receipt::L2(r) => {
            assert_eq!(r.status, TxInBlockStatus::Committed);
            assert_eq!(r.rollup_block, Some(1));
        }
        Receipt::L1(_) => panic!("an L2 transaction resolved through the L1 path"),
    }

    // Block 1 finalized: Finalized, block 1.
    data.tx_sender.pool.last_finalized_block = 1;
    match data.tx_status(h).unwrap().unwrap() {
        Receipt::L2(r) => {
            assert_eq!(r.status, TxInBlockStatus::Finalized);
            assert_eq!(r.rollup_block, Some(1));
        }
        Receipt::L1(_) => panic!("an L2 transaction resolved through the L1 path"),
    }
}

#[test]
fn failed_execution_is_rejected_with_reason_whatever_finalization_says() {
    let mut data = fresh_data();
    let tx = transfer(2, 10, 0);
    let h = tx_hash(&tx);
    data.tx_sender.pool.l2_txs.push(executed(tx, 1, false, Some(42)));

    for finalized in [0u32, 1u32] {
        data.tx_sender.pool.last_finalized_block = finalized;
        match data.tx_status(h).unwrap().unwrap() {
            Receipt::L2(r) => {
                assert_eq!(r.status, TxInBlockStatus::Rejected);
                assert_eq!(r.fail_reason, Some(42));
            }
            Receipt::L1(_) => panic!("an L2 transaction resolved through the L1 path"),
        }
    }
}

#[test]
fn remote_only_deposit_is_queued_with_serial_id() {
    let mut data = fresh_data();
    data.tx_sender.core_api_client.unconfirmed_ops.push(PendingPriorityOp {
        sync_hash: 71,
        eth_hash: 72,
        eth_block: 900,
        serial_id: 15,
        data: L1Op { kind: L1OpKind::Deposit, account: 3, token: 0, amount: 1000 },
    });

    // By sync hash and by chain hash alike.
    for h in [71u64, 72u64] {
        match data.tx_status(h).unwrap().unwrap() {
            Receipt::L1(r) => {
                assert_eq!(r.status, TxInBlockStatus::Queued);
                assert_eq!(r.rollup_block, None);
                assert_eq!(r.id, 15);
                assert_eq!(r.eth_block, 900);
            }
            Receipt::L2(_) => panic!("an L1 operation resolved through the L2 path"),
        }
        let full = data.tx_data(h).unwrap().unwrap();
        assert_eq!(full.tx.status, TxInBlockStatus::Queued);
        assert_eq!(full.tx.block_number, None);
        assert_eq!(full.tx.created_at, None);
    }
}

#[test]
fn executed_l1_operation_found_in_both_identifier_spaces() {
    let mut data = fresh_data();
    data.tx_sender.pool.l1_ops.push(ExecutedL1Op {
        tx_hash: 81,
        eth_hash: 82,
        eth_block: 901,
        block_number: 2,
        priority_op_serialid: 7,
        operation: EncodedL1Op { tag: 0, account: 4, token: 0, amount: 500 },
        created_at: 600,
    });

    // Block 2 not finalized: Committed with the rollup block set.
    for h in [81u64, 82u64] {
        match data.tx_status(h).unwrap().unwrap() {
            Receipt::L1(r) => {
                assert_eq!(r.status, TxInBlockStatus::Committed);
                assert_eq!(r.rollup_block, Some(2));
                assert_eq!(r.id, 7);
            }
            Receipt::L2(_) => panic!("an L1 operation resolved through the L2 path"),
        }
    }

    // Block 2 finalized: Finalized.
    data.tx_sender.pool.last_finalized_block = 2;
    match data.tx_status(81).unwrap().unwrap() {
        Receipt::L1(r) => assert_eq!(r.status, TxInBlockStatus::Finalized),
        Receipt::L2(_) => panic!("an L1 operation resolved through the L2 path"),
    }

    // The materialized record carries the decoded payload.
    let full = data.tx_data(81).unwrap().unwrap();
    match full.tx.op {
        TransactionData::L1(l1) => {
            assert_eq!(l1.op.kind, L1OpKind::Deposit);
            assert_eq!(l1.op.amount, 500);
            assert_eq!(l1.id, 7);
        }
        TransactionData::L2(_) => panic!("an L1 operation materialized as L2"),
    }
}

#[test]
fn withdrawing_kinds_are_enriched_with_settlement_hash() {
    let mut data = fresh_data();
    let withdraw = L2Tx { kind: L2TxKind::Withdraw, account: 5, token: 0, amount: 80, nonce: 1 };
    let h = tx_hash(&withdraw);
    data.tx_sender.pool.l2_txs.push(executed(withdraw, 1, true, None));
    data.tx_sender.pool.settlements.push(SettlementRecord { tx_hash: h, eth_tx_hash: 555 });

    let full = data.tx_data(h).unwrap().unwrap();
    match full.tx.op {
        TransactionData::L2(l2) => assert_eq!(l2.eth_tx_hash, Some(555)),
        TransactionData::L1(_) => panic!("an L2 transaction materialized as L1"),
    }

    // A plain transfer is never enriched.
    let plain = transfer(5, 80, 2);
    let plain_hash = tx_hash(&plain);
    data.tx_sender.pool.l2_txs.push(executed(plain, 1, true, None));
    let full = data.tx_data(plain_hash).unwrap().unwrap();
    match full.tx.op {
        TransactionData::L2(l2) => assert_eq!(l2.eth_tx_hash, None),
        TransactionData::L1(_) => panic!("an L2 transaction materialized as L1"),
    }
}

#[test]
fn forced_exit_is_enriched_like_withdraw() {
    let mut data = fresh_data();
    let fe = L2Tx { kind: L2TxKind::ForcedExit, account: 5, token: 0, amount: 0, nonce: 3 };
    let h = tx_hash(&fe);
    data.tx_sender.pool.l2_txs.push(executed(fe, 1, true, None));
    data.tx_sender.pool.settlements.push(SettlementRecord { tx_hash: h, eth_tx_hash: 777 });

    let full = data.tx_data(h).unwrap().unwrap();
    match full.tx.op {
        TransactionData::L2(l2) => assert_eq!(l2.eth_tx_hash, Some(777)),
        TransactionData::L1(_) => panic!("an L2 transaction materialized as L1"),
    }
}

#[test]
fn l1_store_takes_precedence_over_l2_store() {
    // One identifier colliding across both finalized stores resolves
    // through the L1 path, which stands earlier in the precedence order.
    let mut data = fresh_data();
    let tx = transfer(10, 1, 0);
    let h = tx_hash(&tx);
    data.tx_sender.pool.l2_txs.push(executed(tx, 1, true, None));
    data.tx_sender.pool.l1_ops.push(ExecutedL1Op {
        tx_hash: h,
        eth_hash: h,
        eth_block: 1,
        block_number: 3,
        priority_op_serialid: 2,
        operation: EncodedL1Op { tag: 0, account: 1, token: 0, amount: 1 },
        created_at: 0,
    });
    match data.tx_status(h).unwrap().unwrap() {
        Receipt::L1(r) => assert_eq!(r.rollup_block, Some(3)),
        Receipt::L2(_) => panic!("the L1 store was not consulted first"),
    }
}

#[test]
fn pending_record_carries_the_pool_timestamp() {
    let mut data = fresh_data();
    data.tx_sender.pool.clock = 4321;
    let h = data.tx_sender.submit_tx(transfer(11, 1, 0), None).unwrap();
    let full = data.tx_data(h).unwrap().unwrap();
    assert_eq!(full.tx.created_at, Some(4321));
}

#[test]
fn stored_signature_is_returned_with_the_record() {
    let mut data = fresh_data();
    let tx = transfer(6, 10, 0);
    let h = data.tx_sender.submit_tx(tx, Some(987)).unwrap();
    let full = data.tx_data(h).unwrap().unwrap();
    assert_eq!(full.eth_signature, Some(987));
}

#[test]
fn undecodable_stored_payload_is_a_data_integrity_fault() {
    // An executed L1 operation with an unknown payload tag.
    let mut data = fresh_data();
    data.tx_sender.pool.l1_ops.push(ExecutedL1Op {
        tx_hash: 91,
        eth_hash: 92,
        eth_block: 1,
        block_number: 1,
        priority_op_serialid: 1,
        operation: EncodedL1Op { tag: 9, account: 0, token: 0, amount: 0 },
        created_at: 0,
    });
    assert_eq!(data.tx_data(91), Err(ApiError::DataIntegrity));
    // The receipt path never decodes the payload, so it still answers.
    assert!(data.tx_status(91).unwrap().is_some());

    // An executed L2 transaction with corrupt signature data.
    let mut data = fresh_data();
    let tx = transfer(7, 10, 0);
    let h = tx_hash(&tx);
    let mut record = executed(tx, 1, true, None);
    record.eth_sign_data = Some(EncodedSignData { tag: 3, signature: 0 });
    data.tx_sender.pool.l2_txs.push(record);
    assert_eq!(data.tx_data(h), Err(ApiError::DataIntegrity));
}

#[test]
fn source_failures_propagate_and_never_mask() {
    // The local store down: every read fails with the storage fault.
    let mut data = fresh_data();
    data.tx_sender.pool.available = false;
    assert_eq!(data.tx_status(1), Err(ApiError::Storage));
    assert_eq!(data.tx_data(1), Err(ApiError::Storage));
    assert_eq!(data.get_batch(1), Err(ApiError::Storage));

    // The remote service stands last in the precedence order, so with no
    // local record the lookup reaches it and its failure propagates as an
    // error, never masked into "not found".
    let mut data = fresh_data();
    data.tx_sender.core_api_client.available = false;
    assert_eq!(data.tx_status(1), Err(ApiError::CoreApi));
    assert_eq!(data.tx_data(1), Err(ApiError::CoreApi));
}

#[test]
fn local_answers_never_wait_for_the_remote_service() {
    // A transaction held in the pool resolves Queued with the remote
    // service down: the pool stands before the remote in the precedence
    // order, and the remote is only reached when every local source
    // reports nothing.
    let mut data = fresh_data();
    let h = data.tx_sender.submit_tx(transfer(8, 10, 0), None).unwrap();
    data.tx_sender.core_api_client.available = false;
    match data.tx_status(h).unwrap().unwrap() {
        Receipt::L2(r) => assert_eq!(r.status, TxInBlockStatus::Queued),
        Receipt::L1(_) => panic!("an L2 transaction resolved through the L1 path"),
    }
    assert!(data.tx_data(h).unwrap().is_some());

    // So does a transaction executed and sitting in the finalized store.
    let mut data = fresh_data();
    let tx = transfer(8, 20, 1);
    let h = tx_hash(&tx);
    data.tx_sender.pool.l2_txs.push(executed(tx, 1, true, None));
    data.tx_sender.pool.last_finalized_block = 1;
    data.tx_sender.core_api_client.available = false;
    match data.tx_status(h).unwrap().unwrap() {
        Receipt::L2(r) => assert_eq!(r.status, TxInBlockStatus::Finalized),
        Receipt::L1(_) => panic!("an L2 transaction resolved through the L1 path"),
    }
    assert!(data.tx_data(h).unwrap().is_some());
}

#[test]
fn submission_failures_name_their_source() {
    // Remote service unreachable.
    let mut data = fresh_data();
    data.tx_sender.core_api_client.available = false;
    assert_eq!(data.tx_sender.submit_tx(transfer(1, 1, 0), None), Err(ApiError::CoreApi));

    // Remote service declines: the reason code passes through unchanged.
    let mut data = fresh_data();
    data.tx_sender.core_api_client.accepts_txs = false;
    data.tx_sender.core_api_client.reject_code = 13;
    assert_eq!(
        data.tx_sender.submit_tx(transfer(1, 1, 0), None),
        Err(ApiError::SubmissionRejected(13))
    );
    assert_eq!(
        data.tx_sender.submit_txs_batch(vec![transfer(1, 1, 0)], None),
        Err(ApiError::SubmissionRejected(13))
    );

    // Pool unavailable after the remote service accepted.
    let mut data = fresh_data();
    data.tx_sender.pool.available = false;
    assert_eq!(data.tx_sender.submit_tx(transfer(1, 1, 0), None), Err(ApiError::Storage));
}

#[test]
fn first_matching_record_wins_on_equal_keys() {
    let mut data = fresh_data();
    let tx = transfer(9, 10, 0);
    let h = tx_hash(&tx);
    data.tx_sender.pool.l2_txs.push(executed(tx, 1, true, None));
    let mut shadow = executed(tx, 2, false, Some(1));
    shadow.tx_hash = h;
    data.tx_sender.pool.l2_txs.push(shadow);

    match data.tx_status(h).unwrap().unwrap() {
        Receipt::L2(r) => assert_eq!(r.rollup_block, Some(1)),
        Receipt::L1(_) => panic!("an L2 transaction resolved through the L1 path"),
    }
}
