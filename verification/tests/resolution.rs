//! End-to-end settlement scenarios: the signature verification, the derived
//! roll, and the conditional payout.

use dice_game::bet::Bet;
use dice_game::error::DiceError;
use dice_game::outcome::derive_roll;
use dice_game::resolve::{ed25519_program_id_bytes, Instruction, ResolveBet};
use dice_game::vault::{SigningCapability, Vault};

fn sample_bet(roll: u8, amount: u64) -> Bet {
    Bet {
        player: vec![7u8; 32],
        vault: vec![9u8; 32],
        seed: 42,
        roll,
        amount,
        bump: 254,
    }
}

/// Instruction data of the signature-verification program carrying one
/// record whose components are all embedded in the data itself.
fn companion_data(pk: &[u8], sig: &[u8], msg: &[u8]) -> Vec<u8> {
    let sig_off: u16 = 16;
    let pk_off: u16 = sig_off + 64;
    let msg_off: u16 = pk_off + 32;
    let mut d = vec![1u8, 0u8];
    d.extend_from_slice(&sig_off.to_le_bytes());
    d.extend_from_slice(&0xFFFFu16.to_le_bytes());
    d.extend_from_slice(&pk_off.to_le_bytes());
    d.extend_from_slice(&0xFFFFu16.to_le_bytes());
    d.extend_from_slice(&msg_off.to_le_bytes());
    d.extend_from_slice(&(msg.len() as u16).to_le_bytes());
    d.extend_from_slice(&0xFFFFu16.to_le_bytes());
    d.extend_from_slice(sig);
    d.extend_from_slice(pk);
    d.extend_from_slice(msg);
    d
}

fn companion(pk: &[u8], sig: &[u8], msg: &[u8]) -> Instruction {
    Instruction {
        program_id: ed25519_program_id_bytes(),
        num_accounts: 0,
        data: companion_data(pk, sig, msg),
    }
}

fn context(bet: Bet) -> ResolveBet {
    ResolveBet {
        house: vec![5u8; 32],
        player: bet.player.clone(),
        bet,
    }
}

/// A 64-byte signature whose derived roll is exactly `target`.
fn find_sig_with_roll(target: u8) -> Vec<u8> {
    for i in 0u64..100_000 {
        let sig: Vec<u8> = i.to_le_bytes().repeat(8);
        if derive_roll(&sig) == target {
            return sig;
        }
    }
    panic!("no signature with the wanted roll");
}

#[test]
fn win_scenario_pays_exact_amount() {
    let rb = context(sample_bet(50, 1_000_000));
    let sig = find_sig_with_roll(10);
    let ix = companion(&rb.house, &sig, &rb.bet.to_slice());
    let res = rb.resolve(&ix, &sig).expect("valid settlement");
    assert_eq!(res.roll, 10);
    assert_eq!(res.payout, Some(2_010_204));

    let mut vault = Vault {
        authority: rb.house.clone(),
        balance: 10_000_000,
    };
    let cap = SigningCapability {
        authority: rb.house.clone(),
        bump: 253,
    };
    let player_after = vault.apply_resolution(500, &res, &cap);
    assert_eq!(player_after, Some(500 + 2_010_204));
    assert_eq!(vault.balance, 10_000_000 - 2_010_204);
}

#[test]
fn loss_scenario_moves_nothing() {
    let rb = context(sample_bet(50, 1_000_000));
    let sig = find_sig_with_roll(80);
    let ix = companion(&rb.house, &sig, &rb.bet.to_slice());
    let res = rb.resolve(&ix, &sig).expect("a loss still settles");
    assert_eq!(res.roll, 80);
    assert_eq!(res.payout, None);

    let mut vault = Vault {
        authority: rb.house.clone(),
        balance: 10_000_000,
    };
    let cap = SigningCapability {
        authority: rb.house.clone(),
        bump: 253,
    };
    let player_after = vault.apply_resolution(500, &res, &cap);
    assert_eq!(player_after, Some(500));
    assert_eq!(vault.balance, 10_000_000);
}

#[test]
fn valid_pairs_resolve_with_roll_in_range() {
    for seed in 0u64..40 {
        let rb = context(sample_bet(1 + (seed % 100) as u8, 1_000 + seed));
        let sig = seed.to_le_bytes().repeat(8);
        let ix = companion(&rb.house, &sig, &rb.bet.to_slice());
        let res = rb.resolve(&ix, &sig).expect("valid settlement");
        assert!(1 <= res.roll && res.roll <= 100);
    }
}

#[test]
fn identical_signatures_yield_identical_rolls() {
    let sig = 77u64.to_le_bytes().repeat(8);
    assert_eq!(derive_roll(&sig), derive_roll(&sig));
    let again = sig.clone();
    assert_eq!(derive_roll(&sig), derive_roll(&again));
}

#[test]
fn threshold_one_never_wins() {
    for seed in 0u64..30 {
        let rb = context(sample_bet(1, 5_000_000));
        let sig = seed.to_le_bytes().repeat(8);
        let res = rb.resolve_bet(&sig).expect("a degenerate bet still settles");
        assert_eq!(res.payout, None);
    }
}

#[test]
fn companion_with_account_rejected() {
    let rb = context(sample_bet(50, 1_000_000));
    let sig = vec![3u8; 64];
    let mut ix = companion(&rb.house, &sig, &rb.bet.to_slice());
    ix.num_accounts = 1;
    assert_eq!(rb.resolve(&ix, &sig), Err(DiceError::Ed25519Accounts));
}

#[test]
fn tampered_message_rejected() {
    let rb = context(sample_bet(50, 1_000_000));
    let sig = vec![3u8; 64];
    let mut msg = rb.bet.to_slice();
    msg[40] ^= 0x01;
    let ix = companion(&rb.house, &sig, &msg);
    assert_eq!(rb.resolve(&ix, &sig), Err(DiceError::Ed25519Message));
}

#[test]
fn wrong_pubkey_rejected() {
    let rb = context(sample_bet(50, 1_000_000));
    let sig = vec![3u8; 64];
    let other_pk = vec![6u8; 32];
    let ix = companion(&other_pk, &sig, &rb.bet.to_slice());
    assert_eq!(rb.resolve(&ix, &sig), Err(DiceError::Ed25519Pubkey));
}

#[test]
fn wrong_program_rejected() {
    let rb = context(sample_bet(50, 1_000_000));
    let sig = vec![3u8; 64];
    let mut ix = companion(&rb.house, &sig, &rb.bet.to_slice());
    ix.program_id = vec![0u8; 32];
    assert_eq!(rb.resolve(&ix, &sig), Err(DiceError::Ed25519Program));
}

#[test]
fn undersized_data_rejected() {
    let rb = context(sample_bet(50, 1_000_000));
    let sig = vec![3u8; 64];
    let ix = Instruction {
        program_id: ed25519_program_id_bytes(),
        num_accounts: 0,
        data: vec![2u8, 0u8],
    };
    assert_eq!(rb.resolve(&ix, &sig), Err(DiceError::Ed25519DataLength));
}

#[test]
fn two_records_rejected() {
    let rb = context(sample_bet(50, 1_000_000));
    let sig = vec![3u8; 64];
    let mut data = companion_data(&rb.house, &sig, &rb.bet.to_slice());
    data[0] = 2;
    data.extend_from_slice(&[0u8; 14]);
    let ix = Instruction {
        program_id: ed25519_program_id_bytes(),
        num_accounts: 0,
        data,
    };
    assert_eq!(rb.resolve(&ix, &sig), Err(DiceError::Ed25519DataLength));
}

#[test]
fn non_verifiable_record_rejected() {
    let rb = context(sample_bet(50, 1_000_000));
    let sig = vec![3u8; 64];
    let mut data = companion_data(&rb.house, &sig, &rb.bet.to_slice());
    // Point the signature's instruction index away from this instruction.
    data[4] = 0;
    data[5] = 0;
    let ix = Instruction {
        program_id: ed25519_program_id_bytes(),
        num_accounts: 0,
        data,
    };
    assert_eq!(rb.resolve(&ix, &sig), Err(DiceError::Ed25519Header));
}

#[test]
fn signature_mismatch_rejected() {
    let rb = context(sample_bet(50, 1_000_000));
    let embedded = vec![3u8; 64];
    let supplied = vec![4u8; 64];
    let ix = companion(&rb.house, &embedded, &rb.bet.to_slice());
    assert_eq!(rb.resolve(&ix, &supplied), Err(DiceError::Ed25519Signature));
}

#[test]
fn winning_overflow_reported() {
    let rb = context(sample_bet(2, u64::MAX));
    let sig = find_sig_with_roll(1);
    let ix = companion(&rb.house, &sig, &rb.bet.to_slice());
    assert_eq!(rb.resolve(&ix, &sig), Err(DiceError::Overflow));
}

#[test]
fn insufficient_vault_moves_nothing() {
    let res = dice_game::resolve::Resolution {
        roll: 10,
        payout: Some(2_000_000),
    };
    let mut vault = Vault {
        authority: vec![5u8; 32],
        balance: 1_000_000,
    };
    let cap = SigningCapability {
        authority: vec![5u8; 32],
        bump: 253,
    };
    assert_eq!(vault.apply_resolution(0, &res, &cap), None);
    assert_eq!(vault.balance, 1_000_000);
}
