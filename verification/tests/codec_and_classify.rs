//! The payload codec and the status classifier on concrete values.

use zksync_tx_api::codec::{
    decode_l1_op, decode_l2_tx, encode_l1_op, encode_l2_tx, get_sign_bytes, EncodedL1Op,
    EncodedL2Tx, EncodedSignData,
};
use zksync_tx_api::receipt::classify;
use zksync_tx_api::types::{ApiError, L1Op, L1OpKind, L2Tx, L2TxKind, TxInBlockStatus};

#[test]
fn l2_codec_round_trips_every_kind() {
    let kinds = [
        L2TxKind::ChangePubKey,
        L2TxKind::Close,
        L2TxKind::ForcedExit,
        L2TxKind::Transfer,
        L2TxKind::Withdraw,
    ];
    for kind in kinds {
        let tx = L2Tx { kind, account: 1, token: 2, amount: 3, nonce: 4 };
        assert_eq!(decode_l2_tx(encode_l2_tx(tx)), Ok(tx));
    }
}

#[test]
fn l1_codec_round_trips_every_kind() {
    for kind in [L1OpKind::Deposit, L1OpKind::FullExit] {
        let op = L1Op { kind, account: 1, token: 2, amount: 3 };
        assert_eq!(decode_l1_op(encode_l1_op(op)), Ok(op));
    }
}

#[test]
fn unknown_tags_fail_to_decode() {
    let bad_l2 = EncodedL2Tx { tag: 5, account: 0, token: 0, amount: 0, nonce: 0 };
    assert_eq!(decode_l2_tx(bad_l2), Err(ApiError::DataIntegrity));
    let bad_l1 = EncodedL1Op { tag: 2, account: 0, token: 0, amount: 0 };
    assert_eq!(decode_l1_op(bad_l1), Err(ApiError::DataIntegrity));
    let bad_sign = EncodedSignData { tag: 1, signature: 7 };
    assert_eq!(get_sign_bytes(bad_sign), Err(ApiError::DataIntegrity));
    let good_sign = EncodedSignData { tag: 0, signature: 7 };
    assert_eq!(get_sign_bytes(good_sign), Ok(7));
}

#[test]
fn classifier_maps_every_outcome() {
    assert_eq!(classify(None, false), TxInBlockStatus::Queued);
    assert_eq!(classify(None, true), TxInBlockStatus::Queued);
    assert_eq!(classify(Some(false), false), TxInBlockStatus::Rejected);
    assert_eq!(classify(Some(false), true), TxInBlockStatus::Rejected);
    assert_eq!(classify(Some(true), false), TxInBlockStatus::Committed);
    assert_eq!(classify(Some(true), true), TxInBlockStatus::Finalized);
}
