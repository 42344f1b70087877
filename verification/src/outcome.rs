//! Deriving the roll from the verified signature: hash the signature bytes,
//! read the two 16-byte halves of the digest as big-endian integers, add
//! them with wraparound, and reduce into [1, 100].

use vstd::prelude::*;

use vstd::arithmetic::div_mod::{lemma_mod_bound, lemma_mod_sub_multiples_vanish, lemma_small_mod};
use vstd::arithmetic::mul::lemma_mul_inequality;
use vstd::arithmetic::power::{lemma_pow_adds, lemma_pow_increases, pow};

verus! {

/// The SHA-256 digest of a byte string: a function of the bytes alone.
pub uninterp spec fn sha256_of(input: Seq<u8>) -> Seq<u8>;

/// Relies on `solana_program::hash::hash`: the 32-byte SHA-256 digest of the
/// input, a function of the input bytes alone.
#[verifier::external_body]
fn sha256(input: &Vec<u8>) -> (r: Vec<u8>)
    ensures
        r@ == sha256_of(input@),
        r@.len() == 32,
{
    solana_program::hash::hash(input.as_slice()).to_bytes().to_vec()
}

/// A byte string read as a big-endian unsigned integer.
pub open spec fn be_bytes(s: Seq<u8>) -> int
    decreases s.len(),
{
    if s.len() == 0 {
        0
    } else {
        256 * be_bytes(s.drop_last()) + s.last()
    }
}

/// One more than the largest 128-bit value.
pub open spec fn u128_range() -> int {
    0x100000000000000000000000000000000int
}

/// The roll that a digest yields: the two 16-byte big-endian halves, summed
/// with wraparound modulo 2^128, reduced modulo 100, plus one.
pub open spec fn roll_of(digest: Seq<u8>) -> int {
    let lower = be_bytes(digest.subrange(0, 16));
    let upper = be_bytes(digest.subrange(16, 32));
    ((lower + upper) % u128_range()) % 100 + 1
}

/// Every digest yields a roll in [1, 100].
pub proof fn lemma_roll_in_range(digest: Seq<u8>)
    ensures
        1 <= roll_of(digest) <= 100,
{
    let lower = be_bytes(digest.subrange(0, 16));
    let upper = be_bytes(digest.subrange(16, 32));
    lemma_mod_bound((lower + upper) % u128_range(), 100);
}

/// Reads the 16 bytes of `bytes` at `start` as a big-endian integer.
fn u128_from_be(bytes: &Vec<u8>, start: usize) -> (r: u128)
    requires
        start + 16 <= bytes@.len(),
    ensures
        r as int == be_bytes(bytes@.subrange(start as int, start as int + 16)),
{
    proof {
        assert(pow(256, 0) == 1) by {
            reveal_with_fuel(pow, 1);
        }
    }
    let n = bytes.len();
    let mut acc: u128 = 0;
    let mut j: usize = 0;
    while j < 16
        invariant
            n == bytes@.len(),
            start + 16 <= n,
            j <= 16,
            acc as int == be_bytes(bytes@.subrange(start as int, start as int + j as int)),
            (acc as int) < pow(256, j as nat),
        decreases 16 - j,
    {
        proof {
            lemma_pow_increases(256, j as nat, 15);
            assert(pow(256, 15) == 0x1000000000000000000000000000000) by {
                reveal_with_fuel(pow, 16);
            }
            lemma_mul_inequality(acc as int, pow(256, j as nat) - 1, 256);
            lemma_pow_adds(256, j as nat, 1);
            assert(pow(256, 1) == 256) by {
                reveal_with_fuel(pow, 2);
            }
            assert(pow(256, (j + 1) as nat) == 256 * pow(256, j as nat));
        }
        let b = bytes[start + j];
        acc = acc * 256 + (b as u128);
        j = j + 1;
        proof {
            let s1 = bytes@.subrange(start as int, start as int + j as int);
            assert(s1.drop_last() =~= bytes@.subrange(
                start as int,
                start as int + j as int - 1,
            ));
        }
    }
    acc
}

/// Derives the roll from the signature bytes: the SHA-256 digest's two
/// 16-byte big-endian halves are summed with wraparound and reduced into
/// [1, 100].
pub fn derive_roll(sig: &Vec<u8>) -> (r: u8)
    ensures
        r as int == roll_of(sha256_of(sig@)),
        1 <= r <= 100,
{
    let digest = sha256(sig);
    let lower = u128_from_be(&digest, 0);
    let upper = u128_from_be(&digest, 16);
    let sum = lower.wrapping_add(upper);
    proof {
        if lower + upper <= u128::MAX {
            lemma_small_mod((lower + upper) as nat, u128_range() as nat);
        } else {
            lemma_mod_sub_multiples_vanish(lower as int + upper as int, u128_range());
            lemma_small_mod((lower + upper - u128_range()) as nat, u128_range() as nat);
        }
        assert(sum as int == (lower + upper) % u128_range());
        lemma_mod_bound(sum as int, 100);
        lemma_roll_in_range(sha256_of(sig@));
    }
    let m = sum % 100;
    (m as u8) + 1
}

} // verus!
