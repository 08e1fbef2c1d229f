//! Pure helpers: the arithmetic of combat outcomes, deterministic draws,
//! the entropy table, and the validation of input.

pub mod math;
pub mod rng;
pub mod slot_hashes;
pub mod text;
pub mod validation;

pub use math::{
    calculate_battle_priority, calculate_critical_damage, calculate_damage,
    calculate_effective_attributes, calculate_escape_chance, calculate_hp, calculate_xp_required,
};
pub use rng::{
    determine_roll_rarity, rng_check, rng_percentage, rng_range, rng_u16, rng_u32,
};
pub use slot_hashes::{find_slot_hash, reveal_seed};
pub use validation::{
    validate_attribute_distribution, validate_battle_action, validate_cancel_timeout,
    validate_enemy_template, validate_hero_index, validate_item_data, validate_randomness_delay,
    validate_sufficient_funds,
};
