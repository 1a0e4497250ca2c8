//! Derivation of the 128-bit shared key that tags every message.
//!
//! The key is a function of a clock reading and one random 32-bit draw. Its
//! high word is found by a search for a number without proper divisors, its
//! low word by a Galois shift register. The tag guards against cross-talk
//! between unrelated listeners; it is not a cryptographic secret.

use vstd::prelude::*;
use vstd::arithmetic::div_mod::lemma_fundamental_div_mod;
use vstd::arithmetic::div_mod::lemma_mod_multiples_basic;
use vstd::arithmetic::mul::lemma_mul_inequality;
use vstd::wrapping::u32_specs::wrapping_mul;

verus! {

/// Multiplier that spreads the seed over the 32-bit range.
pub const SEED_CONST: u32 = 0x17012001 ^ 0xDEADBEEF;

/// Mask applied to the register after its last round.
pub const LFSR_MASK: u32 = 0xB4000001;

/// Feedback taps of the shift register.
pub const LFSR_TAPS: u32 = 0x8020001;

/// Number of rounds the shift register runs.
pub const LFSR_ROUNDS: u32 = 32;

/// `d` is a non-zero divisor of `n`.
pub open spec fn divides(d: nat, n: nat) -> bool {
    d != 0 && n % d == 0
}

/// `n` has a divisor in `[2, n)`.
pub open spec fn has_divisor(n: nat) -> bool {
    exists|d: nat| 2 <= d < n && #[trigger] divides(d, n)
}

/// The first value without a divisor in `[2, value)` among `start`,
/// `start + 1`, ... with 32-bit wraparound. The search always ends: zero has
/// no such divisor, and the walk reaches zero after the largest 32-bit value.
pub open spec fn prime_search(start: u32) -> u32
    decreases u32::MAX - start,
{
    if !has_divisor(start as nat) {
        start
    } else if start == u32::MAX {
        0
    } else {
        prime_search((start + 1) as u32)
    }
}

/// One round of the Galois shift register.
pub open spec fn lfsr_round(state: u32) -> u32 {
    if state & 1 == 1 {
        (state >> 1) ^ LFSR_TAPS
    } else {
        state >> 1
    }
}

/// The register after `rounds` rounds from `state`.
pub open spec fn lfsr_rounds(state: u32, rounds: nat) -> u32
    decreases rounds,
{
    if rounds == 0 {
        state
    } else {
        lfsr_round(lfsr_rounds(state, (rounds - 1) as nat))
    }
}

/// The masked register output for a seed.
pub open spec fn lfsr_output(seed: u32) -> u32 {
    lfsr_rounds(seed, LFSR_ROUNDS as nat) & LFSR_MASK
}

/// The value from which the divisor search starts: the low 32 bits of the
/// clock reading, XORed with the random draw, times `SEED_CONST` modulo 2^32.
pub open spec fn mixed_seed(time_ms: u128, random: u32) -> u32 {
    wrapping_mul(((time_ms % 0x1_0000_0000) as u32) ^ random, SEED_CONST)
}

/// A key from its two words: `high` in bits 32..64, `low` in bits 0..32.
pub open spec fn assemble(high: u32, low: u32) -> u128 {
    ((high as u128) << 32) | (low as u128)
}

/// The key that a clock reading and a random draw determine.
pub open spec fn key_of(time_ms: u128, random: u32) -> u128 {
    assemble(prime_search(mixed_seed(time_ms, random)), lfsr_output(random))
}

/// A number with no divisor below `bound` has none at all once `bound`
/// squared exceeds it: of two factors, one is always below `bound`.
proof fn lemma_no_small_divisor(n: nat, bound: nat)
    requires
        2 <= bound,
        bound * bound > n,
        forall|e: nat| 2 <= e < bound ==> !#[trigger] divides(e, n),
    ensures
        !has_divisor(n),
{
    assert forall|e: nat| 2 <= e < n implies !#[trigger] divides(e, n) by {
        if divides(e, n) && e >= bound {
            let q = n / e;
            lemma_fundamental_div_mod(n as int, e as int);
            assert(n == e * q);
            if q >= bound {
                lemma_mul_inequality(bound as int, e as int, bound as int);
                lemma_mul_inequality(bound as int, q as int, e as int);
                assert(bound * bound <= e * bound);
                assert(bound * e <= q * e);
                assert(e * bound == bound * e) by (nonlinear_arith);
                assert(q * e == e * q) by (nonlinear_arith);
                assert(false);
            }
            if q < 2 {
                assert(e * q <= e) by (nonlinear_arith)
                    requires
                        q < 2,
                ;
                assert(false);
            }
            lemma_mod_multiples_basic(e as int, q as int);
            assert((e * q) % q == 0);
            assert(divides(q, n));
            assert(false);
        }
    }
}

/// Tells whether `n` has a divisor in `[2, n)`. Trial division stops at the
/// square root: a number with a divisor at or above it has one below it too.
pub fn has_proper_divisor(n: u32) -> (found: bool)
    ensures
        found == has_divisor(n as nat),
{
    let mut d: u32 = 2;
    while d <= n / d
        invariant
            2 <= d,
            forall|e: nat| 2 <= e < d ==> !#[trigger] divides(e, n as nat),
        decreases n - d,
    {
        assert(d * d <= n && d < n) by (nonlinear_arith)
            requires
                2 <= d <= n / d,
        ;
        if n % d == 0 {
            assert(divides(d as nat, n as nat));
            return true;
        }
        d = d + 1;
    }
    assert(d * d > n) by (nonlinear_arith)
        requires
            2 <= d,
            d > n / d,
    ;
    proof {
        lemma_no_small_divisor(n as nat, d as nat);
    }
    false
}

/// Walks up from `start`, wrapping at 2^32, to the first value without a
/// divisor in `[2, value)`.
pub fn next_prime_from(start: u32) -> (found: u32)
    ensures
        found == prime_search(start),
        !has_divisor(found as nat),
{
    let mut number: u32 = start;
    while has_proper_divisor(number)
        invariant
            prime_search(number) == prime_search(start),
        decreases
            (if number == 0 {
                0
            } else {
                0x1_0000_0000 - number
            }),
    {
        number = number.wrapping_add(1);
    }
    number
}

/// Runs the shift register for `LFSR_ROUNDS` rounds from `seed` and masks
/// the result.
pub fn lfsr(seed: u32) -> (output: u32)
    ensures
        output == lfsr_output(seed),
{
    let mut state: u32 = seed;
    let mut round: u32 = 0;
    while round < LFSR_ROUNDS
        invariant
            round <= LFSR_ROUNDS,
            state == lfsr_rounds(seed, round as nat),
        decreases LFSR_ROUNDS - round,
    {
        let lsb: u32 = state & 1;
        state = state >> 1;
        if lsb == 1 {
            state = state ^ LFSR_TAPS;
        }
        round = round + 1;
    }
    state & LFSR_MASK
}

/// Derives the key from a clock reading in milliseconds since the epoch and
/// a random 32-bit draw.
pub fn derive_key(time_ms: u128, random: u32) -> (key: u128)
    ensures
        key == key_of(time_ms, random),
{
    let low_time: u32 = (time_ms % 0x1_0000_0000) as u32;
    let mixed: u32 = (low_time ^ random).wrapping_mul(SEED_CONST);
    let high: u32 = next_prime_from(mixed);
    let low: u32 = lfsr(random);
    ((high as u128) << 32) | (low as u128)
}

/// The two words of an assembled key sit side by side: the key is
/// `high * 2^32 + low`, so bits 64 and above are zero.
pub proof fn lemma_assemble_words(high: u32, low: u32)
    ensures
        assemble(high, low) == high as nat * 0x1_0000_0000 + low as nat,
        assemble(high, low) >> 32 == high,
        assemble(high, low) & 0xFFFF_FFFF == low,
{
    assert((((high as u128) << 32) | (low as u128)) == (high as u128) * 0x1_0000_0000 + (
    low as u128)) by (bit_vector);
    assert((((high as u128) << 32) | (low as u128)) >> 32 == high as u128) by (bit_vector);
    assert((((high as u128) << 32) | (low as u128)) & 0xFFFF_FFFF == low as u128)
        by (bit_vector);
}

} // verus!
