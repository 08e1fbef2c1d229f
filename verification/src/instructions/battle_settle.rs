//! The settlement of a battle that has ended.

use vstd::prelude::*;
use anchor_lang::prelude::Pubkey;
use crate::constants::BATTLE_STATE_HERO_WON;
use crate::errors::RpgError;
use crate::state::battle::Battle;
use crate::state::enemy_template::EnemyTemplate;
use crate::state::hero::Hero;
use crate::state::player::Player;

verus! {

/// What a settlement reports.
#[derive(Clone, Copy, Debug, PartialEq, Eq)]
pub struct BattleSettled {
    pub player: Pubkey,
    pub hero: Pubkey,
    pub enemy_template: Pubkey,
    pub battle: Pubkey,
    pub victory: bool,
    pub xp_gained: u32,
    pub hero_hp_remaining: u32,
    pub turns_taken: u8,
}

/// The experience that settling `battle` grants: the template's reward for
/// a battle won, nothing for any other end.
pub open spec fn settlement_xp(battle: Battle, enemy_template: EnemyTemplate) -> u32 {
    if battle.state == BATTLE_STATE_HERO_WON {
        enemy_template.xp_reward
    } else {
        0
    }
}

/// Settles a battle that has ended: a battle won grants the template's
/// experience and counts as a victory, any other end counts as a battle
/// fought.
///
/// The battle is taken by value. A settled battle is used up, so none is
/// settled twice. A battle that is still active is refused with
/// `InvalidBattleAction` and handed back as it was, and nothing changes.
pub fn battle_settle(
    player_key: Pubkey,
    hero_key: Pubkey,
    enemy_template_key: Pubkey,
    battle_key: Pubkey,
    player: &mut Player,
    hero: &mut Hero,
    enemy_template: &EnemyTemplate,
    battle: Battle,
) -> (settled: Result<BattleSettled, (RpgError, Battle)>)
    ensures
        !battle.terminal() ==> settled == Err::<BattleSettled, (RpgError, Battle)>(
            (RpgError::InvalidBattleAction, battle),
        ) && *final(player) == *old(player) && *final(hero) == *old(hero),
        battle.terminal() ==> settled == Ok::<BattleSettled, (RpgError, Battle)>(
            BattleSettled {
                player: player_key,
                hero: hero_key,
                enemy_template: enemy_template_key,
                battle: battle_key,
                victory: battle.state == BATTLE_STATE_HERO_WON,
                xp_gained: settlement_xp(battle, *enemy_template),
                hero_hp_remaining: battle.hero_hp,
                turns_taken: battle.turn,
            },
        ) && *final(hero) == old(hero).with_xp(
            settlement_xp(battle, *enemy_template),
        ).with_battle_counted(battle.state == BATTLE_STATE_HERO_WON) && *final(player) == old(
            player,
        ).with_battle_counted(
            battle.state == BATTLE_STATE_HERO_WON,
            settlement_xp(battle, *enemy_template) as u64,
        ),
{
    if battle.is_active() {
        return Err((RpgError::InvalidBattleAction, battle));
    }
    let mut xp_gained: u32 = 0;
    let victory = battle.state == BATTLE_STATE_HERO_WON;

    if victory {
        xp_gained = enemy_template.xp_reward;
        hero.add_xp(xp_gained);
    }
    hero.add_battle_stats(victory);
    player.add_battle_stats(victory, xp_gained as u64);

    Ok(
        BattleSettled {
            player: player_key,
            hero: hero_key,
            enemy_template: enemy_template_key,
            battle: battle_key,
            victory,
            xp_gained,
            hero_hp_remaining: battle.hero_hp,
            turns_taken: battle.turn,
        },
    )
}

} // verus!
