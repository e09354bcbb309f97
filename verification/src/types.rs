//! The data model: transaction payloads, lifecycle statuses, receipts,
//! materialized transaction records and the error taxonomy.
//!
//! Identifiers are fixed-width hashes; the model holds them as plain `u64`
//! values.  One logical operation may be named in two identifier spaces (the
//! rollup's own sync hash and the originating chain's transaction hash), so
//! record types carry both where the stores index both.

use vstd::prelude::*;

verus! {

/// Lifecycle state of a rollup transaction.
///
/// The order of progression is Queued -> Committed -> Finalized; Rejected is
/// an alternate terminal state reachable only before finalization (an L2
/// transaction that fails execution).
#[derive(Clone, Copy, Debug, PartialEq, Eq, Structural)]
pub enum TxInBlockStatus {
    Queued,
    Committed,
    Finalized,
    Rejected,
}

/// The kind of an L1-origin (priority) operation.
#[derive(Clone, Copy, Debug, PartialEq, Eq, Structural)]
pub enum L1OpKind {
    Deposit,
    FullExit,
}

/// A decoded L1-origin operation payload.
#[derive(Clone, Copy, Debug, PartialEq, Eq)]
pub struct L1Op {
    pub kind: L1OpKind,
    pub account: u64,
    pub token: u64,
    pub amount: u64,
}

/// The kind of a user-submitted L2 transaction.  A closed tagged union:
/// the classifier and the materializer match on it exhaustively.
#[derive(Clone, Copy, Debug, PartialEq, Eq, Structural)]
pub enum L2TxKind {
    ChangePubKey,
    Close,
    ForcedExit,
    Transfer,
    Withdraw,
}

/// A decoded user-submitted L2 transaction.
#[derive(Clone, Copy, Debug, PartialEq, Eq)]
pub struct L2Tx {
    pub kind: L2TxKind,
    pub account: u64,
    pub token: u64,
    pub amount: u64,
    pub nonce: u64,
}

/// Lifecycle receipt for an L1-origin operation.
///
/// `rollup_block` is present exactly when the status is at least Committed;
/// `id` is the sequential id assigned when the operation was observed.
#[derive(Clone, Copy, Debug, PartialEq, Eq)]
pub struct L1Receipt {
    pub status: TxInBlockStatus,
    pub eth_block: u64,
    pub rollup_block: Option<u32>,
    pub id: u64,
}

/// Lifecycle receipt for a user-submitted L2 transaction.
///
/// `rollup_block` is present exactly when the status is at least Committed;
/// `fail_reason` is present exactly when the status is Rejected.
#[derive(Clone, Copy, Debug, PartialEq, Eq)]
pub struct L2Receipt {
    pub tx_hash: u64,
    pub rollup_block: Option<u32>,
    pub status: TxInBlockStatus,
    pub fail_reason: Option<u64>,
}

/// A lifecycle receipt, tagged by origin.
#[derive(Clone, Copy, Debug, PartialEq, Eq)]
pub enum Receipt {
    L1(L1Receipt),
    L2(L2Receipt),
}

/// Full content of an L1-origin operation as reported to a client.
#[derive(Clone, Copy, Debug, PartialEq, Eq)]
pub struct L1Transaction {
    pub op: L1Op,
    pub eth_hash: u64,
    pub id: u64,
    pub tx_hash: u64,
}

/// Full content of an L2 transaction as reported to a client.
///
/// `eth_tx_hash` carries the settlement transaction on the originating
/// chain, looked up only for the withdrawing kinds (ForcedExit, Withdraw);
/// it is `None` for every other kind.
#[derive(Clone, Copy, Debug, PartialEq, Eq)]
pub struct L2TransactionData {
    pub tx: L2Tx,
    pub eth_tx_hash: Option<u64>,
}

/// Origin-tagged operation payload of a materialized transaction.
#[derive(Clone, Copy, Debug, PartialEq, Eq)]
pub enum TransactionData {
    L1(L1Transaction),
    L2(L2TransactionData),
}

/// A materialized transaction record.
///
/// `block_number` is absent while the transaction is Queued; `created_at` is
/// absent for L1 operations synthesized from the remote core service, which
/// have not yet been timestamped by a local store.
#[derive(Clone, Copy, Debug, PartialEq, Eq)]
pub struct Transaction {
    pub tx_hash: u64,
    pub block_number: Option<u32>,
    pub op: TransactionData,
    pub status: TxInBlockStatus,
    pub fail_reason: Option<u64>,
    pub created_at: Option<u64>,
}

/// A materialized transaction together with its origin signature, which is
/// absent for unsigned transactions and for L1 operations.
#[derive(Clone, Copy, Debug, PartialEq, Eq)]
pub struct TxData {
    pub tx: Transaction,
    pub eth_signature: Option<u64>,
}

/// Aggregate information about a stored batch of L2 transactions.
///
/// `batch_status` is recomputed from the members on every read, never
/// cached, because members may advance at different times.
#[derive(Clone, Debug, PartialEq, Eq)]
pub struct ApiTxBatch {
    pub batch_hash: u64,
    pub transaction_hashes: Vec<u64>,
    pub created_at: u64,
    pub batch_status: TxInBlockStatus,
}

/// Reply to a batch submission: the member hashes in submission order and
/// the batch hash committing to that order.
#[derive(Clone, Debug, PartialEq, Eq)]
pub struct SubmitBatchResponse {
    pub transaction_hashes: Vec<u64>,
    pub batch_hash: u64,
}

/// The error taxonomy.  "Not found" is never an error: reads return
/// `Ok(None)` for it.
///
/// - `Storage`: a local store query failed (the source was unavailable).
/// - `CoreApi`: a remote core service call failed.
/// - `SubmissionRejected`: the remote core service declined a submission;
///   the reason code is passed through unchanged.
/// - `DataIntegrity`: a stored payload did not decode into a known shape;
///   corruption upstream of this library's trust boundary, surfaced loudly
///   and never treated as "not found".
#[derive(Clone, Copy, Debug, PartialEq, Eq)]
pub enum ApiError {
    Storage,
    CoreApi,
    SubmissionRejected(u64),
    DataIntegrity,
}

} // verus!
