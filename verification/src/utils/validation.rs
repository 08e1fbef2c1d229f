//! Validation of what a caller hands in. Each function accepts or rejects
//! and changes nothing.

use vstd::prelude::*;
use crate::constants::{
    ACTION_ESCAPE, AI_AGGRESSIVE, AI_BALANCED, AI_DEFENSIVE, CANCEL_TIMEOUT_SLOTS,
    ITEM_TYPE_ACCESSORY, MAX_LEVEL, MIN_RANDOMNESS_DELAY_SLOTS, RARITY_MYTHIC,
};
use crate::errors::RpgError;

verus! {

/// `value` where `accepted` holds, and the error otherwise.
pub open spec fn accept_or<T>(accepted: bool, value: T, error: RpgError) -> Result<T, RpgError> {
    if accepted {
        Ok(value)
    } else {
        Err(error)
    }
}

/// A name field that holds nothing but padding: every byte is zero.
pub open spec fn name_is_blank(name: Seq<u8>) -> bool {
    forall|i: int| 0 <= i < name.len() ==> name[i] == 0
}

/// The slot whose entropy a session committed at `commit_slot` is bound to.
pub open spec fn reveal_slot_of(commit_slot: int) -> int {
    commit_slot + MIN_RANDOMNESS_DELAY_SLOTS
}

/// The entropy of a session committed at `commit_slot` may be bound at
/// `current_slot`: the minimum delay has passed.
pub open spec fn reveal_due(current_slot: int, commit_slot: int) -> bool {
    current_slot >= reveal_slot_of(commit_slot)
}

/// A pending session committed at `commit_slot` may be cancelled at
/// `current_slot`: the timeout has passed.
pub open spec fn cancel_due(current_slot: int, commit_slot: int) -> bool {
    current_slot > commit_slot + CANCEL_TIMEOUT_SLOTS
}

/// The fields of an enemy template are in range: a level from 1 to the
/// highest level, a name that is not blank, one of the three behaviours.
pub open spec fn enemy_template_valid(level: u16, name: Seq<u8>, ai_flags: u8) -> bool {
    &&& 0 < level <= MAX_LEVEL
    &&& !name_is_blank(name)
    &&& (ai_flags == AI_AGGRESSIVE || ai_flags == AI_DEFENSIVE || ai_flags == AI_BALANCED)
}

/// Validate hero index is within bounds.
pub fn validate_hero_index(index: u8, max_count: u8) -> (valid: Result<(), RpgError>)
    ensures
        valid == accept_or(index < max_count, (), RpgError::HeroIndexOutOfBounds),
{
    if index < max_count {
        Ok(())
    } else {
        Err(RpgError::HeroIndexOutOfBounds)
    }
}

/// Validate attribute distribution for level up: the points spent are
/// exactly the points available.
pub fn validate_attribute_distribution(
    strength: u16,
    dexterity: u16,
    vitality: u16,
    intelligence: u16,
    wisdom: u16,
    agility: u16,
    precision: u16,
    luck: u16,
    available_points: u16,
) -> (valid: Result<(), RpgError>)
    ensures
        valid == accept_or(
            strength + dexterity + vitality + intelligence + wisdom + agility + precision + luck
                == available_points,
            (),
            RpgError::InvalidAttributeDistribution,
        ),
{
    let total_spent: u32 = strength as u32 + dexterity as u32 + vitality as u32
        + intelligence as u32 + wisdom as u32 + agility as u32 + precision as u32 + luck as u32;
    if total_spent == available_points as u32 {
        Ok(())
    } else {
        Err(RpgError::InvalidAttributeDistribution)
    }
}

/// Validate battle action is valid.
pub fn validate_battle_action(action: u8) -> (valid: Result<(), RpgError>)
    ensures
        valid == accept_or(action <= ACTION_ESCAPE, (), RpgError::InvalidBattleAction),
{
    if action <= ACTION_ESCAPE {
        Ok(())
    } else {
        Err(RpgError::InvalidBattleAction)
    }
}

/// Whether a name field holds nothing but zero bytes.
pub fn is_blank_name(name: &[u8; 32]) -> (blank: bool)
    ensures
        blank == name_is_blank(name@),
{
    let mut i: usize = 0;
    while i < 32
        invariant
            i <= 32,
            forall|j: int| 0 <= j < i ==> name@[j] == 0,
        decreases 32 - i,
    {
        if name[i] != 0 {
            return false;
        }
        i += 1;
    }
    true
}

/// Validate enemy template data.
pub fn validate_enemy_template(level: u16, name: &[u8; 32], ai_flags: u8) -> (valid: Result<
    (),
    RpgError,
>)
    ensures
        valid == accept_or(
            enemy_template_valid(level, name@, ai_flags),
            (),
            RpgError::InvalidEnemyTemplate,
        ),
{
    if !(level > 0 && level <= MAX_LEVEL) {
        return Err(RpgError::InvalidEnemyTemplate);
    }
    if is_blank_name(name) {
        return Err(RpgError::InvalidEnemyTemplate);
    }
    if !(ai_flags == AI_AGGRESSIVE || ai_flags == AI_DEFENSIVE || ai_flags == AI_BALANCED) {
        return Err(RpgError::InvalidEnemyTemplate);
    }
    Ok(())
}

/// Validate item data: the type first, then the rarity, then the name.
pub fn validate_item_data(item_type: u8, rarity: u8, name: &[u8; 32]) -> (valid: Result<
    (),
    RpgError,
>)
    ensures
        valid == if item_type > ITEM_TYPE_ACCESSORY {
            Err::<(), RpgError>(RpgError::WrongItemType)
        } else if rarity > RARITY_MYTHIC {
            Err::<(), RpgError>(RpgError::InvalidItemRarity)
        } else if name_is_blank(name@) {
            Err::<(), RpgError>(RpgError::ItemNotFound)
        } else {
            Ok::<(), RpgError>(())
        },
{
    if item_type > ITEM_TYPE_ACCESSORY {
        return Err(RpgError::WrongItemType);
    }
    if rarity > RARITY_MYTHIC {
        return Err(RpgError::InvalidItemRarity);
    }
    if is_blank_name(name) {
        return Err(RpgError::ItemNotFound);
    }
    Ok(())
}

/// Validate sufficient funds for operation.
pub fn validate_sufficient_funds(available: u64, required: u64) -> (valid: Result<(), RpgError>)
    ensures
        valid == accept_or(available >= required, (), RpgError::InsufficientFunds),
{
    if available >= required {
        Ok(())
    } else {
        Err(RpgError::InsufficientFunds)
    }
}

/// Validate randomness delay has passed. Before that the entropy is not
/// there yet, and the caller may come again later.
pub fn validate_randomness_delay(current_slot: u64, commit_slot: u64) -> (valid: Result<
    (),
    RpgError,
>)
    ensures
        valid == accept_or(
            reveal_due(current_slot as int, commit_slot as int),
            (),
            RpgError::RandomnessNotResolved,
        ),
{
    match commit_slot.checked_add(MIN_RANDOMNESS_DELAY_SLOTS) {
        Some(reveal_slot) => {
            if current_slot >= reveal_slot {
                Ok(())
            } else {
                Err(RpgError::RandomnessNotResolved)
            }
        },
        None => Err(RpgError::RandomnessNotResolved),
    }
}

/// Validate cancel timeout has passed.
pub fn validate_cancel_timeout(current_slot: u64, commit_slot: u64) -> (valid: Result<
    (),
    RpgError,
>)
    ensures
        valid == accept_or(
            cancel_due(current_slot as int, commit_slot as int),
            (),
            RpgError::CancelTimeoutNotExpired,
        ),
{
    match commit_slot.checked_add(CANCEL_TIMEOUT_SLOTS) {
        Some(deadline) => {
            if current_slot > deadline {
                Ok(())
            } else {
                Err(RpgError::CancelTimeoutNotExpired)
            }
        },
        None => Err(RpgError::CancelTimeoutNotExpired),
    }
}

/// The timeout is longer than the reveal delay: whenever a session may be
/// cancelled, its reveal has been due for a while.
pub proof fn lemma_cancel_after_reveal(current_slot: int, commit_slot: int)
    requires
        cancel_due(current_slot, commit_slot),
    ensures
        reveal_due(current_slot, commit_slot),
{
}

} // verus!
