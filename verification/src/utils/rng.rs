//! Deterministic random draws from a 32-byte seed and a draw index.
//!
//! Every draw is a pure function of the seed and the index: whoever holds the
//! revealed seed can compute each decision again.

use vstd::prelude::*;
use crate::constants::{
    RARITY_COMMON, RARITY_EPIC, RARITY_LEGENDARY, RARITY_MYTHIC, RARITY_RARE, RARITY_UNCOMMON,
};

verus! {

/// The draw index times `factor`, kept to its low eight bits.
pub open spec fn tap(turn: u8, factor: u8) -> u8 {
    ((turn as nat * factor as nat) % 256nat) as u8
}

/// The 16-bit draw: two bytes, low byte first. Each is the XOR of two seed
/// bytes with a tap of the draw index.
pub open spec fn rng_u16_of(seed: Seq<u8>, turn: u8) -> int
    recommends
        seed.len() == 32,
{
    let b0 = seed[0] ^ seed[16] ^ turn;
    let b1 = seed[1] ^ seed[17] ^ tap(turn, 3);
    b0 as int + 256 * (b1 as int)
}

/// The 32-bit draw: four bytes, low byte first, over eight seed bytes and
/// the taps 1, 3, 5 and 7 of the draw index.
pub open spec fn rng_u32_of(seed: Seq<u8>, turn: u8) -> int
    recommends
        seed.len() == 32,
{
    let b0 = seed[0] ^ seed[8] ^ turn;
    let b1 = seed[1] ^ seed[9] ^ tap(turn, 3);
    let b2 = seed[2] ^ seed[10] ^ tap(turn, 5);
    let b3 = seed[3] ^ seed[11] ^ tap(turn, 7);
    b0 as int + 256 * (b1 as int) + 65536 * (b2 as int) + 16777216 * (b3 as int)
}

/// A draw within `min..=max`: `min` where the range is empty or a single
/// value, else `min` plus the 32-bit draw modulo the size of the range.
pub open spec fn rng_range_of(seed: Seq<u8>, turn: u8, min: int, max: int) -> int
    recommends
        seed.len() == 32,
{
    if min >= max {
        min
    } else {
        min + rng_u32_of(seed, turn) % (max - min + 1)
    }
}

/// A 32-bit value brought down to `0..=999`.
pub open spec fn rarity_scale(value: int) -> int {
    value * 1000 / 4294967296
}

/// The rarity tier of a scaled value: 500 values are common, 250 uncommon,
/// 150 rare, 60 epic, 30 legendary and the last 10 mythic.
pub open spec fn rarity_of_scaled(scaled: int) -> u8 {
    if scaled <= 499 {
        RARITY_COMMON
    } else if scaled <= 749 {
        RARITY_UNCOMMON
    } else if scaled <= 899 {
        RARITY_RARE
    } else if scaled <= 959 {
        RARITY_EPIC
    } else if scaled <= 989 {
        RARITY_LEGENDARY
    } else {
        RARITY_MYTHIC
    }
}

/// Generate a pseudo-random u16 from seed and turn counter.
pub fn rng_u16(seed: &[u8; 32], turn: u8) -> (value: u16)
    ensures
        value == rng_u16_of(seed@, turn),
{
    let b0: u8 = seed[0] ^ seed[16] ^ turn;
    let b1: u8 = seed[1] ^ seed[17] ^ turn.wrapping_mul(3);
    (b0 as u16) + 256 * (b1 as u16)
}

/// Generate a pseudo-random u32 from seed and turn counter.
pub fn rng_u32(seed: &[u8; 32], turn: u8) -> (value: u32)
    ensures
        value == rng_u32_of(seed@, turn),
{
    let b0: u8 = seed[0] ^ seed[8] ^ turn;
    let b1: u8 = seed[1] ^ seed[9] ^ turn.wrapping_mul(3);
    let b2: u8 = seed[2] ^ seed[10] ^ turn.wrapping_mul(5);
    let b3: u8 = seed[3] ^ seed[11] ^ turn.wrapping_mul(7);
    (b0 as u32) + 256 * (b1 as u32) + 65536 * (b2 as u32) + 16777216 * (b3 as u32)
}

/// Generate random number in range [min, max].
pub fn rng_range(seed: &[u8; 32], turn: u8, min: u32, max: u32) -> (value: u32)
    ensures
        value == rng_range_of(seed@, turn, min as int, max as int),
        min < max ==> min <= value <= max,
{
    if min >= max {
        return min;
    }
    let random: u32 = rng_u32(seed, turn);
    let span: u32 = max - min;
    if span == u32::MAX {
        // The range is every 32-bit value: the draw itself.
        random
    } else {
        let range: u32 = span + 1;
        min + (random % range)
    }
}

/// Whether a random event occurs, for a threshold in basis points out of
/// 10000.
pub fn rng_check(seed: &[u8; 32], turn: u8, threshold: u16) -> (occurs: bool)
    ensures
        occurs == (rng_u16_of(seed@, turn) % 10000 < threshold),
{
    let roll: u16 = rng_u16(seed, turn) % 10000;
    roll < threshold
}

/// Generate random percentage (0-100).
pub fn rng_percentage(seed: &[u8; 32], turn: u8) -> (percent: u8)
    ensures
        percent == rng_u16_of(seed@, turn) % 101,
        percent <= 100,
{
    (rng_u16(seed, turn) % 101) as u8
}

/// Determine roll reward rarity based on random value.
pub fn determine_roll_rarity(seed: &[u8; 32], turn: u8) -> (rarity: u8)
    ensures
        rarity == rarity_of_scaled(rarity_scale(rng_u32_of(seed@, turn))),
        rarity <= RARITY_MYTHIC,
{
    let random: u64 = rng_u32(seed, turn) as u64;
    let scaled: u64 = random * 1000 / 4294967296;
    if scaled <= 499 {
        RARITY_COMMON
    } else if scaled <= 749 {
        RARITY_UNCOMMON
    } else if scaled <= 899 {
        RARITY_RARE
    } else if scaled <= 959 {
        RARITY_EPIC
    } else if scaled <= 989 {
        RARITY_LEGENDARY
    } else {
        RARITY_MYTHIC
    }
}

/// Every 32-bit value scales into `0..=999`.
pub proof fn lemma_rarity_scale_bounded(value: int)
    requires
        0 <= value <= u32::MAX,
    ensures
        0 <= rarity_scale(value) <= 999,
{
}

/// The six tiers share out `0..=999` without gap or overlap: each scaled
/// value has exactly the tier whose bucket holds it.
pub proof fn lemma_rarity_buckets_exhaustive(scaled: int)
    requires
        0 <= scaled <= 999,
    ensures
        rarity_of_scaled(scaled) == RARITY_COMMON <==> 0 <= scaled <= 499,
        rarity_of_scaled(scaled) == RARITY_UNCOMMON <==> 500 <= scaled <= 749,
        rarity_of_scaled(scaled) == RARITY_RARE <==> 750 <= scaled <= 899,
        rarity_of_scaled(scaled) == RARITY_EPIC <==> 900 <= scaled <= 959,
        rarity_of_scaled(scaled) == RARITY_LEGENDARY <==> 960 <= scaled <= 989,
        rarity_of_scaled(scaled) == RARITY_MYTHIC <==> 990 <= scaled <= 999,
{
}

/// The share of each tier among the 32-bit draws: a draw is common below
/// 2147483648, which is half of them, uncommon below 3221225472, rare
/// below 3865470567, epic below 4123168605, legendary below 4252017624,
/// and mythic from there on.
pub proof fn lemma_rarity_of_draw(value: int)
    requires
        0 <= value <= u32::MAX,
    ensures
        rarity_of_scaled(rarity_scale(value)) == if value < 2147483648 {
            RARITY_COMMON
        } else if value < 3221225472 {
            RARITY_UNCOMMON
        } else if value < 3865470567 {
            RARITY_RARE
        } else if value < 4123168605 {
            RARITY_EPIC
        } else if value < 4252017624 {
            RARITY_LEGENDARY
        } else {
            RARITY_MYTHIC
        },
{
}

} // verus!
