//! The authoring of an enemy template.

use vstd::prelude::*;
use anchor_lang::prelude::Pubkey;
use crate::errors::RpgError;
use crate::state::Attributes;
use crate::state::enemy_template::EnemyTemplate;
use crate::utils::text::{utf8_lossy, without_trailing_nul};
use crate::utils::validation::{enemy_template_valid, validate_enemy_template};

verus! {

/// What the creation of a template reports.
#[derive(Debug, PartialEq, Eq)]
pub struct EnemyTemplateCreated {
    pub enemy_template: Pubkey,
    pub id: u32,
    pub name: String,
    pub level: u16,
    pub xp_reward: u32,
    pub timestamp: i64,
}

/// Creates an enemy template from its fields.
///
/// Fields out of range are rejected with `InvalidEnemyTemplate`. Otherwise
/// the template is returned with what is reported of it, its name as text.
pub fn create_enemy_template(
    enemy_template_key: Pubkey,
    id: u32,
    name: [u8; 32],
    level: u16,
    strength: u16,
    dexterity: u16,
    vitality: u16,
    intelligence: u16,
    wisdom: u16,
    agility: u16,
    precision: u16,
    luck: u16,
    ai_flags: u8,
    xp_reward: u32,
    unix_timestamp: i64,
    bump: u8,
) -> (created: Result<(EnemyTemplate, EnemyTemplateCreated), RpgError>)
    ensures
        !enemy_template_valid(level, name@, ai_flags) ==> created.is_err() && created.unwrap_err()
            == RpgError::InvalidEnemyTemplate,
        enemy_template_valid(level, name@, ai_flags) ==> created.is_ok() && created.unwrap().0 == (
        EnemyTemplate {
            id,
            name,
            level,
            base_attributes: Attributes {
                strength,
                dexterity,
                vitality,
                intelligence,
                wisdom,
                agility,
                precision,
                luck,
            },
            ai_flags,
            xp_reward,
            created_at: unix_timestamp,
            bump,
        }) && created.unwrap().1.enemy_template == enemy_template_key && created.unwrap().1.id
            == id && created.unwrap().1.name@ == without_trailing_nul(utf8_lossy(name@))
            && created.unwrap().1.level == level && created.unwrap().1.xp_reward == xp_reward
            && created.unwrap().1.timestamp == unix_timestamp,
{
    match validate_enemy_template(level, &name, ai_flags) {
        Err(error) => {
            return Err(error);
        },
        Ok(()) => {},
    }
    let enemy_template = EnemyTemplate {
        id,
        name,
        level,
        base_attributes: Attributes {
            strength,
            dexterity,
            vitality,
            intelligence,
            wisdom,
            agility,
            precision,
            luck,
        },
        ai_flags,
        xp_reward,
        created_at: unix_timestamp,
        bump,
    };
    let event = EnemyTemplateCreated {
        enemy_template: enemy_template_key,
        id,
        name: enemy_template.get_name_string(),
        level,
        xp_reward,
        timestamp: unix_timestamp,
    };
    Ok((enemy_template, event))
}

} // verus!
