//! Lifecycle resolution for rollup transactions.
//!
//! The library answers "where is this transaction (or batch) in the
//! sequencing pipeline right now" by reconciling four independent data
//! sources: a finalized store of L1-origin operations, a finalized store of
//! L2 transactions, the node-local pending pool, and a remote core service
//! holding operations not yet persisted locally.  Every source is modeled as
//! plain data held by [`state::StorageState`] and [`state::CoreState`], so
//! that the precedence order, the status classification and the receipt and
//! payload assembly are all verified.

pub mod api;
pub mod batch;
pub mod codec;
pub mod hashes;
pub mod laws;
pub mod materialize;
pub mod receipt;
pub mod state;
pub mod tx_sender;
pub mod types;
