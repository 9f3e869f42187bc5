//! Ring VRF tickets: anonymous ring signatures and non-anonymous (IETF)
//! signatures over VRF inputs on the Bandersnatch curve, whose verification
//! yields the same ticket score in both modes.
pub mod backend;
pub mod error;
pub mod ticket;
pub mod signature;
pub mod ring;
pub mod prover;
pub mod verification;
pub mod params;
