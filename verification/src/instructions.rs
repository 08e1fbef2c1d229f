//! The transitions of the game, each as one function from the records and
//! the caller's input to the changed records and what is reported.

pub mod battle_settle;
pub mod battle_start;
pub mod battle_turn;
pub mod buy_hero;
pub mod cancel_pending;
pub mod create_enemy_template;
pub mod initialize_treasury;
pub mod level_up_hero;
pub mod player_initialize;
pub mod roll_fulfill;
pub mod roll_start;

pub use battle_settle::{battle_settle, BattleSettled};
pub use battle_start::{battle_start, BattleStarted};
pub use battle_turn::{battle_turn, BattleTurnExecuted};
pub use buy_hero::{buy_hero, HeroPurchased};
pub use cancel_pending::{
    cancel_pending_battle, cancel_pending_roll, PendingBattleCanceled, PendingRollCanceled,
};
pub use create_enemy_template::{create_enemy_template, EnemyTemplateCreated};
pub use initialize_treasury::{initialize_treasury, TreasuryInitialized};
pub use level_up_hero::{level_up_hero, AttributeIncrease, HeroLeveledUp};
pub use player_initialize::{player_initialize, PlayerInitialized};
pub use roll_fulfill::{roll_fulfill, RollCompleted};
pub use roll_start::roll_start;
