//! Settlement core of a dice-betting program: checks that a companion
//! signature-verification instruction attests the authority's signature over
//! the exact serialized bet record, derives a pseudo-random roll in [1, 100]
//! from the hash of that signature, and computes the payout with a fixed
//! house edge using wide integer arithmetic.

pub mod bet;
pub mod bytes;
pub mod ed25519;
pub mod error;
pub mod outcome;
pub mod payout;
pub mod resolve;
pub mod vault;
