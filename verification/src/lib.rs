//! Rules engine for a turn-based combat and loot-reward game: commit-reveal
//! randomness, outcome resolution and the battle turn state machine.

pub mod constants;
pub mod errors;
pub mod instructions;
pub mod state;
pub mod utils;
