use rpg_program::constants::{
    RARITY_COMMON, RARITY_EPIC, RARITY_LEGENDARY, RARITY_MYTHIC, RARITY_RARE, RARITY_UNCOMMON,
};
use rpg_program::utils::rng::{
    determine_roll_rarity, rng_check, rng_percentage, rng_range, rng_u16, rng_u32,
};

fn rng_seed_counting() -> [u8; 32] {
    let mut seed = [0u8; 32];
    for (i, byte) in seed.iter_mut().enumerate() {
        *byte = i as u8;
    }
    seed
}

fn rng_seed_drawing(value: u32) -> [u8; 32] {
    let mut seed = [0u8; 32];
    seed[..4].copy_from_slice(&value.to_le_bytes());
    seed
}

#[test]
fn test_rng_u16() {
    let seed = [1u8; 32];
    let result1 = rng_u16(&seed, 0);
    let result2 = rng_u16(&seed, 1);

    assert_ne!(result1, result2);
}

#[test]
fn test_rng_range() {
    let seed = [1u8; 32];
    let result = rng_range(&seed, 0, 10, 20);

    assert!(result >= 10 && result <= 20);
}

#[test]
fn test_rng_percentage() {
    let seed = [1u8; 32];
    let result = rng_percentage(&seed, 0);

    assert!(result <= 100);
}

#[test]
fn test_determine_roll_rarity() {
    let seed = [1u8; 32];
    let rarity = determine_roll_rarity(&seed, 0);

    assert!(rarity <= RARITY_MYTHIC);
}

#[test]
fn rng_u16_packs_two_bytes_low_first() {
    let ones = [1u8; 32];
    assert_eq!(rng_u16(&ones, 0), 0);
    assert_eq!(rng_u16(&ones, 1), 769);
    assert_eq!(rng_u16(&ones, 100), 11364);
    assert_eq!(rng_u16(&ones, 255), 65023);
    let counting = rng_seed_counting();
    assert_eq!(rng_u16(&counting, 0), 4112);
    assert_eq!(rng_u16(&counting, 7), 1303);
}

#[test]
fn rng_u32_packs_four_bytes_low_first() {
    let ones = [1u8; 32];
    assert_eq!(rng_u32(&ones, 0), 0);
    assert_eq!(rng_u32(&ones, 1), 117768961);
    assert_eq!(rng_u32(&ones, 100), 3170118756);
    assert_eq!(rng_u32(&ones, 255), 4194041343);
    let counting = rng_seed_counting();
    assert_eq!(rng_u32(&counting, 0), 134744072);
    assert_eq!(rng_u32(&counting, 7), 959126799);
    assert_eq!(rng_u32(&rng_seed_drawing(0xdeadbeef), 0), 0xdeadbeef);
}

#[test]
fn draws_are_replayable() {
    let seed = rng_seed_counting();
    for turn in 0..=255u8 {
        assert_eq!(rng_u16(&seed, turn), rng_u16(&seed, turn));
        assert_eq!(rng_u32(&seed, turn), rng_u32(&seed, turn));
    }
}

#[test]
fn rng_range_is_min_plus_draw_modulo_size() {
    let counting = rng_seed_counting();
    assert_eq!(rng_range(&counting, 7, 10, 20), 14);
    assert_eq!(rng_range(&counting, 7, 0, 10), 4);
    assert_eq!(rng_range(&rng_seed_drawing(21), 0, 10, 20), 20);
    assert_eq!(rng_range(&rng_seed_drawing(22), 0, 10, 20), 10);
}

#[test]
fn rng_range_of_an_empty_range_is_min() {
    let counting = rng_seed_counting();
    assert_eq!(rng_range(&counting, 7, 20, 10), 20);
    assert_eq!(rng_range(&counting, 7, 15, 15), 15);
    assert_eq!(rng_range(&counting, 7, u32::MAX, 0), u32::MAX);
}

#[test]
fn rng_range_over_every_value_is_the_draw() {
    let counting = rng_seed_counting();
    assert_eq!(rng_range(&counting, 7, 0, u32::MAX), 959126799);
    assert_eq!(rng_range(&counting, 7, 1, u32::MAX), 1 + 959126799 % u32::MAX);
    assert_eq!(rng_range(&rng_seed_drawing(u32::MAX), 0, 0, u32::MAX), u32::MAX);
}

#[test]
fn rng_check_compares_the_roll_with_the_threshold() {
    let counting = rng_seed_counting();
    assert!(rng_check(&counting, 7, 1304));
    assert!(!rng_check(&counting, 7, 1303));
    assert!(!rng_check(&counting, 7, 0));
    assert!(rng_check(&counting, 7, 10000));
    let ones = [1u8; 32];
    // 11364 modulo 10000
    assert!(rng_check(&ones, 100, 1365));
    assert!(!rng_check(&ones, 100, 1364));
    // a roll of zero is under every threshold but zero
    assert!(rng_check(&ones, 0, 1));
    assert!(!rng_check(&ones, 0, 0));
}

#[test]
fn rng_percentage_is_the_draw_modulo_101() {
    let counting = rng_seed_counting();
    assert_eq!(rng_percentage(&counting, 7), 91);
    let ones = [1u8; 32];
    assert_eq!(rng_percentage(&ones, 0), 0);
    assert_eq!(rng_percentage(&ones, 1), 62);
    for turn in 0..=255u8 {
        assert!(rng_percentage(&counting, turn) <= 100);
    }
}

#[test]
fn rarity_buckets_meet_at_their_boundaries() {
    assert_eq!(determine_roll_rarity(&rng_seed_drawing(0), 0), RARITY_COMMON);
    assert_eq!(determine_roll_rarity(&rng_seed_drawing(2147483647), 0), RARITY_COMMON);
    assert_eq!(determine_roll_rarity(&rng_seed_drawing(2147483648), 0), RARITY_UNCOMMON);
    assert_eq!(determine_roll_rarity(&rng_seed_drawing(3221225471), 0), RARITY_UNCOMMON);
    assert_eq!(determine_roll_rarity(&rng_seed_drawing(3221225472), 0), RARITY_RARE);
    assert_eq!(determine_roll_rarity(&rng_seed_drawing(3865470566), 0), RARITY_RARE);
    assert_eq!(determine_roll_rarity(&rng_seed_drawing(3865470567), 0), RARITY_EPIC);
    assert_eq!(determine_roll_rarity(&rng_seed_drawing(4123168604), 0), RARITY_EPIC);
    assert_eq!(determine_roll_rarity(&rng_seed_drawing(4123168605), 0), RARITY_LEGENDARY);
    assert_eq!(determine_roll_rarity(&rng_seed_drawing(4252017623), 0), RARITY_LEGENDARY);
    assert_eq!(determine_roll_rarity(&rng_seed_drawing(4252017624), 0), RARITY_MYTHIC);
    assert_eq!(determine_roll_rarity(&rng_seed_drawing(u32::MAX), 0), RARITY_MYTHIC);
}

#[test]
fn rarity_shares_follow_the_bucket_widths() {
    // One draw in the middle of each thousandth of the 32-bit range.
    let mut counts = [0u32; 6];
    for scaled in 0..1000u64 {
        let value = ((scaled * 4294967296 + 2147483648) / 1000) as u32;
        let rarity = determine_roll_rarity(&rng_seed_drawing(value), 0);
        counts[rarity as usize] += 1;
    }
    assert_eq!(counts, [500, 250, 150, 60, 30, 10]);
}

#[test]
fn rarity_uses_the_draw_index() {
    let ones = [1u8; 32];
    // draw 1 of this seed is 117768961, draw 255 is 4194041343
    assert_eq!(determine_roll_rarity(&ones, 1), RARITY_COMMON);
    assert_eq!(determine_roll_rarity(&ones, 255), RARITY_LEGENDARY);
}
