//! The bet record: one wager, created when the player places a bet and
//! consumed by the resolution. Its exact serialized form is the message the
//! authority signs.

use vstd::prelude::*;

use crate::bytes::{append_bytes, push_u128_le, push_u64_le, u128_le_seq, u64_le_seq};

verus! {

/// The number of bytes of an identity (a public key).
pub const PUBKEY_LEN: usize = 32;

/// One wager: the identities involved, a player-chosen nonce, the chosen
/// roll threshold, the wagered amount, and the record's derivation nonce.
pub struct Bet {
    /// The player's identity, 32 bytes.
    pub player: Vec<u8>,
    /// The vault's identity, 32 bytes.
    pub vault: Vec<u8>,
    /// The player-chosen nonce that distinguishes this bet.
    pub seed: u128,
    /// The chosen threshold in [1, 100]: the bet wins when the derived roll
    /// is strictly below it.
    pub roll: u8,
    /// The wagered amount.
    pub amount: u64,
    /// The derivation nonce of the record's address.
    pub bump: u8,
}

impl Bet {
    /// A well-formed record: identities are 32 bytes and the threshold lies
    /// in [1, 100].
    pub open spec fn wf(self) -> bool {
        &&& self.player@.len() == PUBKEY_LEN
        &&& self.vault@.len() == PUBKEY_LEN
        &&& 1 <= self.roll <= 100
    }

    /// The exact serialized form of the record: player, vault, seed
    /// (little endian), amount (little endian), threshold, bump.
    pub open spec fn spec_bytes(self) -> Seq<u8> {
        self.player@ + self.vault@ + u128_le_seq(self.seed) + u64_le_seq(self.amount)
            + seq![self.roll] + seq![self.bump]
    }

    /// Serializes the record into the message the authority must sign.
    pub fn to_slice(&self) -> (r: Vec<u8>)
        ensures
            r@ == self.spec_bytes(),
    {
        let mut out: Vec<u8> = Vec::new();
        append_bytes(&mut out, &self.player);
        append_bytes(&mut out, &self.vault);
        push_u128_le(&mut out, self.seed);
        push_u64_le(&mut out, self.amount);
        out.push(self.roll);
        out.push(self.bump);
        proof {
            assert(out@ =~= self.spec_bytes());
        }
        out
    }
}

} // verus!
