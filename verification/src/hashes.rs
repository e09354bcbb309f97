//! Transaction identifiers.
//!
//! An identifier is a fixed-width hash of a transaction's content, so that
//! a client can compute it independently before submitting.  A batch hash
//! commits to the ordered sequence of member hashes: the same members in
//! another order give another batch hash.
//!
//! The hash is an FNV-style fold: each word is folded in by multiplying the
//! accumulator with a fixed odd constant and adding the word, modulo 2^64.

use vstd::prelude::*;

use crate::types::L2Tx;
use crate::codec::spec_l2_kind_tag;

verus! {

/// One folding step of the hash, modulo 2^64.
pub open spec fn spec_mix(h: u64, x: u64) -> u64 {
    (((h as int) * 0x100000001b3 + (x as int)) % 0x10000000000000000) as u64
}

/// Folds one word into a hash accumulator.
pub fn mix(h: u64, x: u64) -> (r: u64)
    ensures
        r == spec_mix(h, x),
{
    let wide: u128 = (h as u128) * 0x100000001b3u128 + (x as u128);
    let reduced: u128 = wide % 0x10000000000000000u128;
    reduced as u64
}

/// The content hash of an L2 transaction: every field folded in, the kind
/// first, so that transactions differing in any field hash apart in
/// general.
pub open spec fn spec_tx_hash(tx: L2Tx) -> u64 {
    spec_mix(
        spec_mix(
            spec_mix(spec_mix(spec_mix(0xcbf29ce484222325, spec_l2_kind_tag(tx.kind)), tx.account), tx.token),
            tx.amount,
        ),
        tx.nonce,
    )
}

/// Computes the content hash of an L2 transaction.
pub fn tx_hash(tx: &L2Tx) -> (h: u64)
    ensures
        h == spec_tx_hash(*tx),
{
    let tag = crate::codec::encode_l2_tx(*tx).tag;
    let h0 = mix(0xcbf29ce484222325, tag);
    let h1 = mix(h0, tx.account);
    let h2 = mix(h1, tx.token);
    let h3 = mix(h2, tx.amount);
    mix(h3, tx.nonce)
}

/// Hash accumulator folded over the member hashes from index `i` on.
pub open spec fn spec_batch_hash_from(hashes: Seq<u64>, acc: u64, i: int) -> u64
    decreases hashes.len() - i,
{
    if i < 0 || i >= hashes.len() {
        acc
    } else {
        spec_batch_hash_from(hashes, spec_mix(acc, hashes[i]), i + 1)
    }
}

/// The batch hash: the hash folded over the member hashes in order,
/// starting from a seed distinct from the transaction-hash seed.
pub open spec fn spec_batch_hash(hashes: Seq<u64>) -> u64 {
    spec_batch_hash_from(hashes, 0x84222325cbf29ce4, 0)
}

/// Computes the batch hash of an ordered sequence of member hashes.
pub fn batch_hash(hashes: &Vec<u64>) -> (h: u64)
    ensures
        h == spec_batch_hash(hashes@),
{
    let n = hashes.len();
    let mut acc: u64 = 0x84222325cbf29ce4;
    let mut i: usize = 0;
    while i < n
        invariant
            i <= n,
            n == hashes@.len(),
            spec_batch_hash(hashes@) == spec_batch_hash_from(hashes@, acc, i as int),
        decreases n - i,
    {
        acc = mix(acc, hashes[i]);
        i = i + 1;
    }
    acc
}

} // verus!
