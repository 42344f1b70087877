//! The vault and the transfer a winning resolution triggers. The derived
//! signing authority of the vault is modeled as an explicit capability
//! value handed into the transfer, not as ambient authority; the transfer
//! itself is the host's, so applying it here only moves model balances.

use vstd::prelude::*;

use crate::resolve::Resolution;

verus! {

/// The proof of authorization to move funds out of the vault: a value
/// derived from a fixed label, the authority's identity and a bump nonce.
pub struct SigningCapability {
    /// The authority's identity the capability was derived from, 32 bytes.
    pub authority: Vec<u8>,
    /// The derivation nonce.
    pub bump: u8,
}

/// The pooled-funds account, controlled by the authority's derived signer.
pub struct Vault {
    /// The authority whose derived signer controls the vault, 32 bytes.
    pub authority: Vec<u8>,
    /// The vault's balance.
    pub balance: u64,
}

impl Vault {
    /// Applies a resolution's transfer to the vault and the player's
    /// balance. A loss moves nothing; a win debits exactly the payout from
    /// the vault and credits it to the player. `None` models the host
    /// aborting the transaction when the transfer cannot complete: the
    /// vault cannot cover the payout, or the player's balance would not
    /// fit; nothing moves then either.
    pub fn apply_resolution(
        &mut self,
        player_balance: u64,
        res: &Resolution,
        cap: &SigningCapability,
    ) -> (r: Option<u64>)
        requires
            cap.authority@ == old(self).authority@,
        ensures
            final(self).authority == old(self).authority,
            match res.payout {
                None => final(self).balance == old(self).balance && r == Some(player_balance),
                Some(p) => if p <= old(self).balance && player_balance + p <= u64::MAX {
                    &&& final(self).balance == old(self).balance - p
                    &&& r == Some((player_balance + p) as u64)
                } else {
                    &&& final(self).balance == old(self).balance
                    &&& r is None
                },
            },
            r matches Some(credited) ==> final(self).balance + credited == old(self).balance
                + player_balance,
    {
        match res.payout {
            None => Some(player_balance),
            Some(p) => {
                if p <= self.balance && player_balance <= u64::MAX - p {
                    self.balance = self.balance - p;
                    Some(player_balance + p)
                } else {
                    None
                }
            },
        }
    }
}

} // verus!
