//! Rings of public keys, with padding in the slots that hold no member.
use vstd::prelude::*;
use crate::backend::{public_key, public_of, secret_from_seed, secret_of_seed, PublicKey, SecretKey};
use crate::ticket::{index_seed, le_bytes};

verus! {

/// The secret key derived from a key index (its little-endian bytes as seed).
pub open spec fn indexed_secret(index: u64) -> SecretKey {
    secret_of_seed(le_bytes(index))
}

/// The public key derived from a key index.
pub open spec fn indexed_public(index: u64) -> PublicKey {
    public_of(indexed_secret(index))
}

/// What a ring built by `build_ring` holds in a slot.
pub open spec fn ring_slot(slot: int, padded: Seq<usize>, padding: PublicKey) -> PublicKey {
    if padded.contains(slot as usize) {
        padding
    } else {
        indexed_public(slot as u64)
    }
}

/// The secret key of a key index.
pub fn secret_of_index(index: u64) -> (r: SecretKey)
    ensures
        r == indexed_secret(index),
{
    let seed = index_seed(index);
    secret_from_seed(seed.as_slice())
}

/// The public key of a key index.
pub fn public_of_index(index: u64) -> (r: PublicKey)
    ensures
        r == indexed_public(index),
{
    let secret = secret_of_index(index);
    public_key(&secret)
}

/// Whether a slot is among the padded ones.
fn is_padded(padded: &Vec<usize>, slot: usize) -> (r: bool)
    ensures
        r == padded@.contains(slot),
{
    let mut i: usize = 0;
    while i < padded.len()
        invariant
            i <= padded@.len(),
            forall|j: int| 0 <= j < i ==> padded@[j] != slot,
        decreases padded@.len() - i,
    {
        if padded[i] == slot {
            return true;
        }
        i = i + 1;
    }
    false
}

/// Builds a ring of `size` slots: slot `i` holds the public key of key index `i`,
/// except the slots listed in `padded`, which hold the padding point.
pub fn build_ring(size: usize, padded: &Vec<usize>, padding: &PublicKey) -> (r: Vec<PublicKey>)
    ensures
        r@.len() == size,
        forall|i: int| 0 <= i < size ==> #[trigger] r@[i] == ring_slot(i, padded@, *padding),
{
    let mut r: Vec<PublicKey> = Vec::new();
    let mut i: usize = 0;
    while i < size
        invariant
            i <= size,
            r@.len() == i,
            forall|j: int| 0 <= j < i ==> #[trigger] r@[j] == ring_slot(j, padded@, *padding),
        decreases size - i,
    {
        if is_padded(padded, i) {
            r.push(padding.clone());
        } else {
            r.push(public_of_index(i as u64));
        }
        i = i + 1;
    }
    r
}

} // verus!
