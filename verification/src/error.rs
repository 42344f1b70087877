//! Failure kinds of a bet resolution. Every failure aborts the whole
//! settlement; none is recovered locally, and each cause is reported as its
//! own kind so that callers can tell a bad signature from bad arithmetic.

use vstd::prelude::*;

verus! {

/// The distinct, fatal failure kinds of a resolution.
#[derive(Clone, Copy, Debug, PartialEq, Eq, Structural)]
pub enum DiceError {
    /// The companion instruction targets a program other than the
    /// signature-verification program.
    Ed25519Program,
    /// The companion instruction references accounts although it must be
    /// pure data.
    Ed25519Accounts,
    /// The companion instruction's data is malformed or undersized, or it
    /// does not carry exactly one signature record.
    Ed25519DataLength,
    /// The embedded signature record is not verifiable on its own.
    Ed25519Header,
    /// The embedded public key is missing or differs from the authority.
    Ed25519Pubkey,
    /// The embedded signature bytes are missing or differ from the supplied
    /// signature.
    Ed25519Signature,
    /// The embedded message bytes are missing or differ from the serialized
    /// bet record.
    Ed25519Message,
    /// The payout does not fit in 64 bits.
    Overflow,
}

impl DiceError {
    /// A short, stable name for reporting the kind to a caller.
    pub fn name(&self) -> (r: &'static str) {
        match self {
            DiceError::Ed25519Program => "ed25519 program mismatch",
            DiceError::Ed25519Accounts => "unexpected accounts",
            DiceError::Ed25519DataLength => "malformed signature data",
            DiceError::Ed25519Header => "signature not verifiable",
            DiceError::Ed25519Pubkey => "authority mismatch",
            DiceError::Ed25519Signature => "signature mismatch",
            DiceError::Ed25519Message => "message mismatch",
            DiceError::Overflow => "arithmetic overflow",
        }
    }
}

} // verus!
