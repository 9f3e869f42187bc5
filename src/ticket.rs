//! Ticket scores and key seeds.
use vstd::prelude::*;

verus! {

/// Number of leading bytes of a VRF output hash that form the ticket score.
pub const SCORE_LEN: usize = 32;

/// The ticket score of a VRF output hash: its first 32 bytes.
pub open spec fn score_of(hash: Seq<u8>) -> Seq<u8> {
    hash.subrange(0, SCORE_LEN as int)
}

/// The eight little-endian bytes of an integer.
pub open spec fn le_bytes(x: u64) -> Seq<u8> {
    seq![
        (x & 0xff) as u8,
        ((x >> 8) & 0xff) as u8,
        ((x >> 16) & 0xff) as u8,
        ((x >> 24) & 0xff) as u8,
        ((x >> 32) & 0xff) as u8,
        ((x >> 40) & 0xff) as u8,
        ((x >> 48) & 0xff) as u8,
        ((x >> 56) & 0xff) as u8,
    ]
}

/// Truncates a VRF output hash to the ticket score.
pub fn ticket_score(hash: &Vec<u8>) -> (r: [u8; 32])
    requires
        hash@.len() >= SCORE_LEN,
    ensures
        r@ == score_of(hash@),
{
    let mut r: [u8; 32] = [0u8; 32];
    let mut i: usize = 0;
    while i < SCORE_LEN
        invariant
            i <= SCORE_LEN,
            hash@.len() >= SCORE_LEN,
            r@.len() == SCORE_LEN,
            forall|j: int| 0 <= j < i ==> r@[j] == hash@[j],
        decreases SCORE_LEN - i,
    {
        r[i] = hash[i];
        i = i + 1;
    }
    assert(r@ =~= score_of(hash@));
    r
}

/// Truncates a VRF output hash to the ticket score, as a vector.
pub fn ticket_score_vec(hash: &Vec<u8>) -> (r: Vec<u8>)
    requires
        hash@.len() >= SCORE_LEN,
    ensures
        r@ == score_of(hash@),
{
    let mut r: Vec<u8> = Vec::new();
    let mut i: usize = 0;
    while i < SCORE_LEN
        invariant
            i <= SCORE_LEN,
            hash@.len() >= SCORE_LEN,
            r@ == hash@.subrange(0, i as int),
        decreases SCORE_LEN - i,
    {
        r.push(hash[i]);
        i = i + 1;
        assert(r@ =~= hash@.subrange(0, i as int));
    }
    r
}

/// The seed bytes of a key index: its eight little-endian bytes.
pub fn index_seed(index: u64) -> (r: Vec<u8>)
    ensures
        r@ == le_bytes(index),
{
    let mut r: Vec<u8> = Vec::new();
    r.push((index & 0xff) as u8);
    r.push(((index >> 8) & 0xff) as u8);
    r.push(((index >> 16) & 0xff) as u8);
    r.push(((index >> 24) & 0xff) as u8);
    r.push(((index >> 32) & 0xff) as u8);
    r.push(((index >> 40) & 0xff) as u8);
    r.push(((index >> 48) & 0xff) as u8);
    r.push(((index >> 56) & 0xff) as u8);
    assert(r@ =~= le_bytes(index));
    r
}

} // verus!
