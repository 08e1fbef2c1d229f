//! The named errors with which an operation is rejected.

use vstd::prelude::*;

verus! {

#[derive(Clone, Copy, Debug, PartialEq, Eq, Structural)]
pub enum RpgError {
    /// Player already initialized.
    PlayerAlreadyInitialized,
    /// Hero not found.
    HeroNotFound,
    /// Hero index out of bounds.
    HeroIndexOutOfBounds,
    /// Maximum heroes reached.
    MaxHeroesReached,
    /// Insufficient funds.
    InsufficientFunds,
    /// Insufficient XP.
    InsufficientXp,
    /// Hero already at max level.
    HeroAtMaxLevel,
    /// Battle not found.
    BattleNotFound,
    /// Battle already completed.
    BattleAlreadyCompleted,
    /// Invalid battle action.
    InvalidBattleAction,
    /// Roll session not found.
    RollSessionNotFound,
    /// Roll already completed.
    RollAlreadyCompleted,
    /// Randomness not resolved yet: the reveal delay has not passed. The
    /// caller may try again at a later slot.
    RandomnessNotResolved,
    /// Invalid slot hashes sysvar: not the entropy table, or a table that
    /// cannot be read.
    InvalidSlotHashes,
    /// Slot not found in history: the table no longer holds the slot. The
    /// session can only be cancelled.
    SlotNotFound,
    /// Enemy template not found.
    EnemyTemplateNotFound,
    /// Invalid enemy template.
    InvalidEnemyTemplate,
    /// Item not found.
    ItemNotFound,
    /// Item already equipped.
    ItemAlreadyEquipped,
    /// Wrong item type for slot.
    WrongItemType,
    /// Invalid item rarity.
    InvalidItemRarity,
    /// Unauthorized operation.
    Unauthorized,
    /// Arithmetic overflow.
    ArithmeticOverflow,
    /// Invalid treasury state.
    InvalidTreasuryState,
    /// Cancel timeout not expired. The caller may try again at a later slot.
    CancelTimeoutNotExpired,
    /// Invalid attribute distribution.
    InvalidAttributeDistribution,
    /// Hero is dead.
    HeroIsDead,
    /// Enemy is dead.
    EnemyIsDead,
}

} // verus!
