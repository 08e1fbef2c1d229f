//! Game constants.

use vstd::prelude::*;

verus! {

/// Slots that must pass after the commit before the entropy may be bound.
pub const MIN_RANDOMNESS_DELAY_SLOTS: u64 = 2;

/// Slots after the commit beyond which a pending session may be cancelled.
pub const CANCEL_TIMEOUT_SLOTS: u64 = 24;

/// Price of a hero, in lamports.
pub const HERO_PURCHASE_COST: u64 = 1_000_000_000;

/// Price of a reward roll, in lamports.
pub const ROLL_COST: u64 = 100_000_000;

/// Price of entering a battle, in lamports.
pub const BATTLE_ENTRY_COST: u64 = 50_000_000;

/// Value of every attribute of a fresh hero.
pub const BASE_ATTRIBUTE_POINTS: u16 = 10;

/// Attribute points handed out at each level-up.
pub const ATTRIBUTE_POINTS_PER_LEVEL: u16 = 5;

/// Experience needed per level step.
pub const XP_PER_LEVEL_BASE: u32 = 1000;

/// Highest level a hero can reach.
pub const MAX_LEVEL: u16 = 100;

/// Number of heroes one player may own.
pub const MAX_HEROES_PER_PLAYER: u8 = 5;

/// Hit points per point of vitality.
pub const BASE_HP_MULTIPLIER: u16 = 10;

/// Divisor applied to the defender's stat before it is taken off the attack.
pub const BASE_DAMAGE_REDUCTION: u16 = 2;

/// Factor applied to the damage of a critical hit.
pub const CRITICAL_MULTIPLIER: u16 = 2;

/// Escape chance without any agility advantage, in basis points.
pub const BASE_ESCAPE_CHANCE: u16 = 3000;

/// Basis points of escape chance per point of agility advantage.
pub const AGILITY_ESCAPE_BONUS: u16 = 100;

/// Experience granted by a roll, indexed by rarity tier.
pub const ROLL_REWARDS: [u32; 6] = [100, 200, 500, 1000, 2000, 5000];

/// Equipment slots of a hero: weapon, armor, accessory.
pub const MAX_ITEMS_PER_HERO: u8 = 3;

/// Behaviour flag of an enemy that always strikes in full.
pub const AI_AGGRESSIVE: u8 = 1;

/// Behaviour flag of an enemy that holds back when it is low on hit points.
pub const AI_DEFENSIVE: u8 = 2;

/// Behaviour flag of a balanced enemy. It has the bits of both others.
pub const AI_BALANCED: u8 = 3;

/// State of a battle that is being fought.
pub const BATTLE_STATE_ACTIVE: u8 = 0;

/// Terminal state: the enemy is at zero hit points.
pub const BATTLE_STATE_HERO_WON: u8 = 1;

/// Terminal state: the hero is at zero hit points.
pub const BATTLE_STATE_HERO_LOST: u8 = 2;

/// Terminal state: the hero has escaped.
pub const BATTLE_STATE_ESCAPED: u8 = 3;

/// State of a roll that waits for its entropy.
pub const ROLL_STATE_PENDING: u8 = 0;

/// State of a roll that has its reward.
pub const ROLL_STATE_COMPLETED: u8 = 1;

pub const RARITY_COMMON: u8 = 0;
pub const RARITY_UNCOMMON: u8 = 1;
pub const RARITY_RARE: u8 = 2;
pub const RARITY_EPIC: u8 = 3;
pub const RARITY_LEGENDARY: u8 = 4;
pub const RARITY_MYTHIC: u8 = 5;

pub const ITEM_TYPE_WEAPON: u8 = 0;
pub const ITEM_TYPE_ARMOR: u8 = 1;
pub const ITEM_TYPE_ACCESSORY: u8 = 2;

/// Action of the hero: a physical attack, strength against vitality.
pub const ACTION_ATTACK: u8 = 0;

/// Action of the hero: defending. It deals no damage and spares none.
pub const ACTION_DEFEND: u8 = 1;

/// Action of the hero: a magic attack, intelligence against wisdom.
pub const ACTION_SKILL: u8 = 2;

/// Action of the hero: an attempt to escape.
pub const ACTION_ESCAPE: u8 = 3;

} // verus!
