//! Ring proof parameters, loaded once from a structured reference string and
//! handed to provers and verifiers.
use vstd::prelude::*;
use crate::backend::{
    capacity_of, params_from_reference_of, reference_decoding_of, reference_string_from_bytes,
    ring_params_from_reference, RingParams,
};
use crate::error::VrfError;

verus! {

/// The capacity of the rings that this library is set up for.
pub const RING_SIZE: usize = 1023;

/// The largest ring capacity that parameters are built for. It keeps the
/// backend's domain size arithmetic far from overflow; a reference string for a
/// ring of this size already holds about three million points.
pub const MAX_RING_SIZE: usize = 1048576;

/// Bytes of an uncompressed point of the first pairing group (BLS12-381 G1).
pub const G1_POINT_LEN: usize = 96;

/// Bytes of an uncompressed point of the second pairing group (BLS12-381 G2).
pub const G2_POINT_LEN: usize = 192;

/// The 64-bit little-endian integer at offset `at` of some bytes.
pub open spec fn le_u64_at(b: Seq<u8>, at: int) -> u64 {
    (b[at] as u64) | ((b[at + 1] as u64) << 8u64) | ((b[at + 2] as u64) << 16u64) | ((b[at + 3] as u64)
        << 24u64) | ((b[at + 4] as u64) << 32u64) | ((b[at + 5] as u64) << 40u64) | ((b[at + 6] as u64)
        << 48u64) | ((b[at + 7] as u64) << 56u64)
}

/// Whether the two length prefixes of a serialized reference string (G1 points,
/// then G2 points, each vector led by its 64-bit length) fit the bytes that
/// follow them.
pub open spec fn reference_lengths_fit(b: Seq<u8>) -> bool {
    b.len() >= 16 && {
        let g2_at = 8 + (le_u64_at(b, 0) as int) * (G1_POINT_LEN as int);
        &&& g2_at + 8 <= b.len()
        &&& g2_at + 8 + (le_u64_at(b, g2_at) as int) * (G2_POINT_LEN as int) <= b.len()
    }
}

/// The parameters that `load_ring_params` gives, if any.
pub open spec fn load_spec(ring_size: usize, srs: Seq<u8>) -> Option<RingParams> {
    if ring_size > MAX_RING_SIZE || !reference_lengths_fit(srs) {
        None
    } else {
        match reference_decoding_of(srs) {
            Some(reference) => params_from_reference_of(ring_size as nat, reference),
            None => None,
        }
    }
}

/// Reads the 64-bit little-endian integer at offset `at`.
fn read_u64_le(b: &[u8], at: usize) -> (r: u64)
    requires
        at + 8 <= b@.len(),
    ensures
        r == le_u64_at(b@, at as int),
{
    (b[at] as u64) | ((b[at + 1] as u64) << 8u64) | ((b[at + 2] as u64) << 16u64) | ((b[at + 3] as u64)
        << 24u64) | ((b[at + 4] as u64) << 32u64) | ((b[at + 5] as u64) << 40u64) | ((b[at + 6] as u64)
        << 48u64) | ((b[at + 7] as u64) << 56u64)
}

/// Checks that the length prefixes of a serialized reference string fit its bytes.
pub fn reference_lengths_ok(b: &[u8]) -> (r: bool)
    ensures
        r == reference_lengths_fit(b@),
{
    let len = b.len();
    if len < 16 {
        return false;
    }
    let n = read_u64_le(b, 0);
    let g1_room = (len - 16) / G1_POINT_LEN;
    if n > g1_room as u64 {
        assert(8 + (n as int) * 96 + 8 > len as int) by (nonlinear_arith)
            requires
                n as int > (len as int - 16) / 96,
                len >= 16,
        ;
        return false;
    }
    assert((n as int) * 96 <= len as int - 16) by (nonlinear_arith)
        requires
            n as int <= (len as int - 16) / 96,
            len >= 16,
    ;
    let g2_at = 8 + (n as usize) * G1_POINT_LEN;
    let m = read_u64_le(b, g2_at);
    let g2_room = (len - 8 - g2_at) / G2_POINT_LEN;
    if m > g2_room as u64 {
        assert(g2_at as int + 8 + (m as int) * 192 > len as int) by (nonlinear_arith)
            requires
                m as int > (len as int - 8 - g2_at as int) / 192,
                len as int >= 8 + g2_at as int,
        ;
        return false;
    }
    assert(g2_at as int + 8 + (m as int) * 192 <= len as int) by (nonlinear_arith)
        requires
            m as int <= (len as int - 8 - g2_at as int) / 192,
            len as int >= 8 + g2_at as int,
    ;
    true
}

/// Builds ring proof parameters for rings of `ring_size` keys from the bytes of a
/// KZG reference string (uncompressed). A capacity above `MAX_RING_SIZE`, length
/// prefixes that overrun the bytes, bytes that do not decode, or a string too
/// short for the capacity give `InitializationFailure`.
pub fn load_ring_params(ring_size: usize, srs: &[u8]) -> (r: Result<RingParams, VrfError>)
    ensures
        match r {
            Ok(params) => load_spec(ring_size, srs@) == Some(params),
            Err(e) => e == VrfError::InitializationFailure && load_spec(ring_size, srs@) is None,
        },
        r matches Ok(params) ==> capacity_of(params) >= ring_size,
{
    if ring_size > MAX_RING_SIZE || !reference_lengths_ok(srs) {
        return Err(VrfError::InitializationFailure);
    }
    let reference = match reference_string_from_bytes(srs) {
        Some(reference) => reference,
        None => return Err(VrfError::InitializationFailure),
    };
    match ring_params_from_reference(ring_size, reference) {
        Some(params) => Ok(params),
        None => Err(VrfError::InitializationFailure),
    }
}

} // verus!
