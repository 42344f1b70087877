//! The settlement itself: check the companion verification instruction,
//! derive the roll from the signature, and compute the conditional payout.
//!
//! The companion instruction is the one the host runtime carried at index 0
//! of the same atomic batch; the caller loads it and passes it in as plain
//! values. Every check and the payout are verified against the spec-level
//! functions below, which pin each failure kind to its exact cause.

use vstd::prelude::*;

use crate::bet::Bet;
use crate::bytes::bytes_eq;
use crate::ed25519::{record_at, sig_count, unpack, unpack_wf};
use crate::error::DiceError;
use crate::outcome::{derive_roll, lemma_roll_in_range, roll_of, sha256_of};
use crate::payout::{compute_payout, payout_value};

verus! {

/// The identity of the signature-verification program that the companion
/// instruction must target.
pub open spec fn ed25519_program_id() -> Seq<u8> {
    seq![
        3u8, 125u8, 70u8, 214u8, 124u8, 147u8, 251u8, 190u8, 18u8, 249u8, 66u8, 143u8, 131u8,
        141u8, 64u8, 255u8, 5u8, 112u8, 116u8, 73u8, 39u8, 244u8, 138u8, 100u8, 252u8, 202u8,
        112u8, 68u8, 128u8, 0u8, 0u8, 0u8,
    ]
}

/// The identity of the signature-verification program, as bytes.
pub fn ed25519_program_id_bytes() -> (r: Vec<u8>)
    ensures
        r@ == ed25519_program_id(),
{
    let v: Vec<u8> = vec![
        3u8, 125u8, 70u8, 214u8, 124u8, 147u8, 251u8, 190u8, 18u8, 249u8, 66u8, 143u8, 131u8,
        141u8, 64u8, 255u8, 5u8, 112u8, 116u8, 73u8, 39u8, 244u8, 138u8, 100u8, 252u8, 202u8,
        112u8, 68u8, 128u8, 0u8, 0u8, 0u8,
    ];
    proof {
        assert(v@ =~= ed25519_program_id());
    }
    v
}

/// A companion instruction of the same atomic batch, as plain values: the
/// program it targets, how many accounts it references, and its data.
pub struct Instruction {
    pub program_id: Vec<u8>,
    pub num_accounts: usize,
    pub data: Vec<u8>,
}

/// The mathematical form of a companion instruction.
pub struct InstructionView {
    pub program_id: Seq<u8>,
    pub num_accounts: int,
    pub data: Seq<u8>,
}

impl View for Instruction {
    type V = InstructionView;

    open spec fn view(&self) -> InstructionView {
        InstructionView {
            program_id: self.program_id@,
            num_accounts: self.num_accounts as int,
            data: self.data@,
        }
    }
}

/// The outcome of a successful resolution: the derived roll, and the payout
/// owed to the player when the bet won.
#[derive(Clone, Copy, Debug, PartialEq, Eq)]
pub struct Resolution {
    pub roll: u8,
    pub payout: Option<u64>,
}

/// What the signature-verification step returns: the first failing check's kind, or
/// success when the companion instruction attests exactly the expected
/// signature by the expected authority over the serialized bet record.
pub open spec fn verify_spec(
    ixv: InstructionView,
    house: Seq<u8>,
    bet: Bet,
    sig: Seq<u8>,
) -> Result<(), DiceError> {
    if ixv.program_id != ed25519_program_id() {
        Err(DiceError::Ed25519Program)
    } else if ixv.num_accounts != 0 {
        Err(DiceError::Ed25519Accounts)
    } else if !unpack_wf(ixv.data) {
        Err(DiceError::Ed25519DataLength)
    } else if sig_count(ixv.data) != 1 {
        Err(DiceError::Ed25519DataLength)
    } else {
        let rec = record_at(ixv.data, 0);
        if !rec.is_verifiable {
            Err(DiceError::Ed25519Header)
        } else if rec.public_key != Some(house) {
            Err(DiceError::Ed25519Pubkey)
        } else if rec.signature != Some(sig) {
            Err(DiceError::Ed25519Signature)
        } else if rec.message != Some(bet.spec_bytes()) {
            Err(DiceError::Ed25519Message)
        } else {
            Ok(())
        }
    }
}

/// All conditions the signature-verification step demands of the companion
/// instruction, stated positively.
pub open spec fn valid_companion(
    ixv: InstructionView,
    house: Seq<u8>,
    bet: Bet,
    sig: Seq<u8>,
) -> bool {
    &&& ixv.program_id == ed25519_program_id()
    &&& ixv.num_accounts == 0
    &&& unpack_wf(ixv.data)
    &&& sig_count(ixv.data) == 1
    &&& record_at(ixv.data, 0).is_verifiable
    &&& record_at(ixv.data, 0).public_key == Some(house)
    &&& record_at(ixv.data, 0).signature == Some(sig)
    &&& record_at(ixv.data, 0).message == Some(bet.spec_bytes())
}

/// Verification succeeds exactly on a valid companion instruction.
pub proof fn lemma_verify_ok_iff(ixv: InstructionView, house: Seq<u8>, bet: Bet, sig: Seq<u8>)
    ensures
        verify_spec(ixv, house, bet, sig) is Ok <==> valid_companion(ixv, house, bet, sig),
{
}

/// What resolving a bet against a digest yields: a win below the threshold
/// pays the computed amount unless it exceeds 64 bits; any other roll loses
/// and still resolves successfully.
pub open spec fn resolve_spec(bet: Bet, digest: Seq<u8>) -> Result<Resolution, DiceError> {
    let roll = roll_of(digest);
    if roll < bet.roll {
        if payout_value(bet.amount, bet.roll) <= u64::MAX {
            Ok(
                Resolution {
                    roll: roll as u8,
                    payout: Some(payout_value(bet.amount, bet.roll) as u64),
                },
            )
        } else {
            Err(DiceError::Overflow)
        }
    } else {
        Ok(Resolution { roll: roll as u8, payout: None })
    }
}

/// The whole settlement: the signature verification, then the resolution against
/// the digest of the signature.
pub open spec fn full_resolve_spec(
    ixv: InstructionView,
    house: Seq<u8>,
    bet: Bet,
    sig: Seq<u8>,
) -> Result<Resolution, DiceError> {
    match verify_spec(ixv, house, bet, sig) {
        Err(e) => Err(e),
        Ok(_) => resolve_spec(bet, sha256_of(sig)),
    }
}

/// The accounts a settlement reads: the authority expected to have signed,
/// the player who placed the bet, and the bet record itself.
pub struct ResolveBet {
    /// The authority's identity, 32 bytes.
    pub house: Vec<u8>,
    /// The player's identity, 32 bytes.
    pub player: Vec<u8>,
    /// The bet record under resolution.
    pub bet: Bet,
}

impl ResolveBet {
    /// Well-formed context: identities of the right size around a
    /// well-formed bet record.
    pub open spec fn wf(self) -> bool {
        &&& self.house@.len() == 32
        &&& self.player@.len() == 32
        &&& self.bet.wf()
    }

    /// Checks that the companion instruction at index 0 of the batch attests
    /// the signature `sig` by the authority over the serialized bet record.
    pub fn verify_ed25519_signature(&self, ix: &Instruction, sig: &Vec<u8>) -> (r: Result<
        (),
        DiceError,
    >)
        ensures
            r == verify_spec(ix@, self.house@, self.bet, sig@),
    {
        let expected = ed25519_program_id_bytes();
        if !bytes_eq(&ix.program_id, &expected) {
            return Err(DiceError::Ed25519Program);
        }
        if ix.num_accounts != 0 {
            return Err(DiceError::Ed25519Accounts);
        }
        let records = match unpack(&ix.data) {
            Ok(v) => v,
            Err(e) => {
                return Err(e);
            },
        };
        if records.len() != 1 {
            return Err(DiceError::Ed25519DataLength);
        }
        let rec = &records[0];
        proof {
            assert(records@[0]@ == record_at(ix@.data, 0));
        }
        if !rec.is_verifiable {
            return Err(DiceError::Ed25519Header);
        }
        match &rec.public_key {
            None => {
                return Err(DiceError::Ed25519Pubkey);
            },
            Some(pk) => {
                if !bytes_eq(pk, &self.house) {
                    return Err(DiceError::Ed25519Pubkey);
                }
            },
        }
        match &rec.signature {
            None => {
                return Err(DiceError::Ed25519Signature);
            },
            Some(s) => {
                if !bytes_eq(s, sig) {
                    return Err(DiceError::Ed25519Signature);
                }
            },
        }
        let expected_msg = self.bet.to_slice();
        match &rec.message {
            None => {
                return Err(DiceError::Ed25519Message);
            },
            Some(m) => {
                if !bytes_eq(m, &expected_msg) {
                    return Err(DiceError::Ed25519Message);
                }
            },
        }
        Ok(())
    }

    /// Resolves the already-verified bet: derives the roll from the
    /// signature and computes the payout of a win.
    pub fn resolve_bet(&self, sig: &Vec<u8>) -> (r: Result<Resolution, DiceError>)
        ensures
            r == resolve_spec(self.bet, sha256_of(sig@)),
    {
        let roll = derive_roll(sig);
        if roll < self.bet.roll {
            match compute_payout(self.bet.amount, self.bet.roll) {
                Ok(p) => Ok(Resolution { roll, payout: Some(p) }),
                Err(e) => Err(e),
            }
        } else {
            Ok(Resolution { roll, payout: None })
        }
    }

    /// The whole settlement: verify the companion instruction, then resolve.
    pub fn resolve(&self, ix: &Instruction, sig: &Vec<u8>) -> (r: Result<Resolution, DiceError>)
        ensures
            r == full_resolve_spec(ix@, self.house@, self.bet, sig@),
    {
        match self.verify_ed25519_signature(ix, sig) {
            Err(e) => Err(e),
            Ok(_) => self.resolve_bet(sig),
        }
    }
}

/// Every valid (record, correctly attested signature) pair resolves
/// successfully with a roll in [1, 100]; the one exception is a winning
/// payout that exceeds 64 bits, which is reported as overflow.
pub proof fn lemma_valid_companion_resolution(
    ixv: InstructionView,
    house: Seq<u8>,
    bet: Bet,
    sig: Seq<u8>,
)
    requires
        valid_companion(ixv, house, bet, sig),
    ensures
        (full_resolve_spec(ixv, house, bet, sig) matches Ok(res) && 1 <= res.roll <= 100)
            || full_resolve_spec(ixv, house, bet, sig) == Err::<Resolution, DiceError>(
            DiceError::Overflow,
        ),
        full_resolve_spec(ixv, house, bet, sig) == Err::<Resolution, DiceError>(
            DiceError::Overflow,
        ) ==> roll_of(sha256_of(sig)) < bet.roll && payout_value(bet.amount, bet.roll)
            > u64::MAX,
{
    lemma_verify_ok_iff(ixv, house, bet, sig);
    lemma_roll_in_range(sha256_of(sig));
}

/// The roll is a pure function of the signature bytes: identical signatures
/// always yield the identical roll.
pub proof fn lemma_roll_deterministic(sig1: Seq<u8>, sig2: Seq<u8>)
    requires
        sig1 == sig2,
    ensures
        roll_of(sha256_of(sig1)) == roll_of(sha256_of(sig2)),
{
}

/// A bet with threshold 1 never wins, whatever the signature: the roll is
/// at least 1, so the win condition is unreachable, and resolution still
/// succeeds with no payout.
pub proof fn lemma_threshold_one_never_wins(bet: Bet, digest: Seq<u8>)
    requires
        bet.roll == 1,
    ensures
        resolve_spec(bet, digest) matches Ok(res) && res.payout is None,
{
    lemma_roll_in_range(digest);
}

/// A signed message that differs from the serialized bet record in even a
/// single byte is rejected as a message mismatch, never accepted.
pub proof fn lemma_tampered_message_rejected(
    ixv: InstructionView,
    house: Seq<u8>,
    bet: Bet,
    sig: Seq<u8>,
    k: int,
)
    requires
        ixv.program_id == ed25519_program_id(),
        ixv.num_accounts == 0,
        unpack_wf(ixv.data),
        sig_count(ixv.data) == 1,
        record_at(ixv.data, 0).is_verifiable,
        record_at(ixv.data, 0).public_key == Some(house),
        record_at(ixv.data, 0).signature == Some(sig),
        record_at(ixv.data, 0).message matches Some(m) && 0 <= k < m.len() && k
            < bet.spec_bytes().len() && m[k] != bet.spec_bytes()[k],
    ensures
        verify_spec(ixv, house, bet, sig) == Err::<(), DiceError>(DiceError::Ed25519Message),
{
}

/// A record attested for a public key other than the authority's is
/// rejected as an authority mismatch.
pub proof fn lemma_wrong_pubkey_rejected(
    ixv: InstructionView,
    house: Seq<u8>,
    bet: Bet,
    sig: Seq<u8>,
)
    requires
        ixv.program_id == ed25519_program_id(),
        ixv.num_accounts == 0,
        unpack_wf(ixv.data),
        sig_count(ixv.data) == 1,
        record_at(ixv.data, 0).is_verifiable,
        record_at(ixv.data, 0).public_key matches Some(pk) && pk != house,
    ensures
        verify_spec(ixv, house, bet, sig) == Err::<(), DiceError>(DiceError::Ed25519Pubkey),
{
}

} // verus!
