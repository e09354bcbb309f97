//! Stored payload encodings.
//!
//! The stores keep operation payloads and signature data in an encoded form:
//! a numeric tag naming the variant plus the variant's fields.  Decoding
//! into the typed payload fails exactly on an unknown tag, and such a
//! failure is a `DataIntegrity` fault: a record with an unknown tag cannot
//! have been written by a component this library trusts, so it is surfaced
//! loudly, never treated as "not found".

use vstd::prelude::*;

use crate::types::{ApiError, L1Op, L1OpKind, L2Tx, L2TxKind};

verus! {

/// Encoded form of a stored L1 operation payload.
#[derive(Clone, Copy, Debug, PartialEq, Eq)]
pub struct EncodedL1Op {
    pub tag: u64,
    pub account: u64,
    pub token: u64,
    pub amount: u64,
}

/// Encoded form of a stored L2 transaction payload.
#[derive(Clone, Copy, Debug, PartialEq, Eq)]
pub struct EncodedL2Tx {
    pub tag: u64,
    pub account: u64,
    pub token: u64,
    pub amount: u64,
    pub nonce: u64,
}

/// Encoded form of stored origin-signature data.  Only tag 0 is a known
/// shape; any other tag is corrupt.
#[derive(Clone, Copy, Debug, PartialEq, Eq)]
pub struct EncodedSignData {
    pub tag: u64,
    pub signature: u64,
}

/// Tag under which an L1 operation kind is stored.
pub open spec fn spec_l1_kind_tag(kind: L1OpKind) -> u64 {
    match kind {
        L1OpKind::Deposit => 0,
        L1OpKind::FullExit => 1,
    }
}

/// Tag under which an L2 transaction kind is stored.
pub open spec fn spec_l2_kind_tag(kind: L2TxKind) -> u64 {
    match kind {
        L2TxKind::ChangePubKey => 0,
        L2TxKind::Close => 1,
        L2TxKind::ForcedExit => 2,
        L2TxKind::Transfer => 3,
        L2TxKind::Withdraw => 4,
    }
}

/// What decoding an L1 payload yields: the typed operation for the two
/// known tags, a `DataIntegrity` fault for every other tag.
pub open spec fn spec_decode_l1_op(e: EncodedL1Op) -> Result<L1Op, ApiError> {
    if e.tag == 0 {
        Ok(L1Op { kind: L1OpKind::Deposit, account: e.account, token: e.token, amount: e.amount })
    } else if e.tag == 1 {
        Ok(L1Op { kind: L1OpKind::FullExit, account: e.account, token: e.token, amount: e.amount })
    } else {
        Err(ApiError::DataIntegrity)
    }
}

/// The encoded form of a typed L1 operation.
pub open spec fn spec_encode_l1_op(op: L1Op) -> EncodedL1Op {
    EncodedL1Op {
        tag: spec_l1_kind_tag(op.kind),
        account: op.account,
        token: op.token,
        amount: op.amount,
    }
}

/// Decodes a stored L1 operation payload.
pub fn decode_l1_op(e: EncodedL1Op) -> (r: Result<L1Op, ApiError>)
    ensures
        r == spec_decode_l1_op(e),
{
    if e.tag == 0 {
        Ok(L1Op { kind: L1OpKind::Deposit, account: e.account, token: e.token, amount: e.amount })
    } else if e.tag == 1 {
        Ok(L1Op { kind: L1OpKind::FullExit, account: e.account, token: e.token, amount: e.amount })
    } else {
        Err(ApiError::DataIntegrity)
    }
}

/// Encodes a typed L1 operation for storage.
pub fn encode_l1_op(op: L1Op) -> (r: EncodedL1Op)
    ensures
        r == spec_encode_l1_op(op),
{
    let tag: u64 = match op.kind {
        L1OpKind::Deposit => 0,
        L1OpKind::FullExit => 1,
    };
    EncodedL1Op { tag, account: op.account, token: op.token, amount: op.amount }
}

/// What decoding an L2 payload yields: the typed transaction for the five
/// known tags, a `DataIntegrity` fault for every other tag.
pub open spec fn spec_decode_l2_tx(e: EncodedL2Tx) -> Result<L2Tx, ApiError> {
    if e.tag == 0 {
        Ok(
            L2Tx {
                kind: L2TxKind::ChangePubKey,
                account: e.account,
                token: e.token,
                amount: e.amount,
                nonce: e.nonce,
            },
        )
    } else if e.tag == 1 {
        Ok(
            L2Tx {
                kind: L2TxKind::Close,
                account: e.account,
                token: e.token,
                amount: e.amount,
                nonce: e.nonce,
            },
        )
    } else if e.tag == 2 {
        Ok(
            L2Tx {
                kind: L2TxKind::ForcedExit,
                account: e.account,
                token: e.token,
                amount: e.amount,
                nonce: e.nonce,
            },
        )
    } else if e.tag == 3 {
        Ok(
            L2Tx {
                kind: L2TxKind::Transfer,
                account: e.account,
                token: e.token,
                amount: e.amount,
                nonce: e.nonce,
            },
        )
    } else if e.tag == 4 {
        Ok(
            L2Tx {
                kind: L2TxKind::Withdraw,
                account: e.account,
                token: e.token,
                amount: e.amount,
                nonce: e.nonce,
            },
        )
    } else {
        Err(ApiError::DataIntegrity)
    }
}

/// The encoded form of a typed L2 transaction.
pub open spec fn spec_encode_l2_tx(tx: L2Tx) -> EncodedL2Tx {
    EncodedL2Tx {
        tag: spec_l2_kind_tag(tx.kind),
        account: tx.account,
        token: tx.token,
        amount: tx.amount,
        nonce: tx.nonce,
    }
}

/// Decodes a stored L2 transaction payload.
pub fn decode_l2_tx(e: EncodedL2Tx) -> (r: Result<L2Tx, ApiError>)
    ensures
        r == spec_decode_l2_tx(e),
{
    let kind = if e.tag == 0 {
        L2TxKind::ChangePubKey
    } else if e.tag == 1 {
        L2TxKind::Close
    } else if e.tag == 2 {
        L2TxKind::ForcedExit
    } else if e.tag == 3 {
        L2TxKind::Transfer
    } else if e.tag == 4 {
        L2TxKind::Withdraw
    } else {
        return Err(ApiError::DataIntegrity);
    };
    Ok(L2Tx { kind, account: e.account, token: e.token, amount: e.amount, nonce: e.nonce })
}

/// Encodes a typed L2 transaction for storage.
pub fn encode_l2_tx(tx: L2Tx) -> (r: EncodedL2Tx)
    ensures
        r == spec_encode_l2_tx(tx),
{
    let tag: u64 = match tx.kind {
        L2TxKind::ChangePubKey => 0,
        L2TxKind::Close => 1,
        L2TxKind::ForcedExit => 2,
        L2TxKind::Transfer => 3,
        L2TxKind::Withdraw => 4,
    };
    EncodedL2Tx { tag, account: tx.account, token: tx.token, amount: tx.amount, nonce: tx.nonce }
}

/// What extracting stored signature data yields: the packed signature for
/// the one known shape, a `DataIntegrity` fault for every other tag.
pub open spec fn spec_get_sign_bytes(e: EncodedSignData) -> Result<u64, ApiError> {
    if e.tag == 0 {
        Ok(e.signature)
    } else {
        Err(ApiError::DataIntegrity)
    }
}

/// Extracts the origin signature from stored signature data.  An unknown
/// shape is a `DataIntegrity` fault: the store handed back a field no
/// trusted component writes.
pub fn get_sign_bytes(e: EncodedSignData) -> (r: Result<u64, ApiError>)
    ensures
        r == spec_get_sign_bytes(e),
{
    if e.tag == 0 {
        Ok(e.signature)
    } else {
        Err(ApiError::DataIntegrity)
    }
}

/// An encoded L2 payload decodes exactly when its tag is one of the five
/// known kinds.
pub proof fn lemma_decode_l2_tx_ok_iff(e: EncodedL2Tx)
    ensures
        (spec_decode_l2_tx(e) is Ok) <==> e.tag < 5,
{
}

/// Decoding inverts encoding: a payload written by this library's own
/// encoder always decodes, back to the same transaction.
pub proof fn lemma_l2_tx_round_trip(tx: L2Tx)
    ensures
        spec_decode_l2_tx(spec_encode_l2_tx(tx)) == Ok::<L2Tx, ApiError>(tx),
{
}

/// Decoding inverts encoding for L1 operation payloads.
pub proof fn lemma_l1_op_round_trip(op: L1Op)
    ensures
        spec_decode_l1_op(spec_encode_l1_op(op)) == Ok::<L1Op, ApiError>(op),
{
}

} // verus!
