//! One turn of a battle.
//!
//! The side with the higher agility acts first, the hero on a tie. The
//! other side acts only if the battle is still active after that: a killing
//! blow, or an escape, ends the turn at once.

use vstd::prelude::*;
use anchor_lang::prelude::Pubkey;
use crate::constants::{
    ACTION_ATTACK, ACTION_DEFEND, ACTION_ESCAPE, ACTION_SKILL, AI_AGGRESSIVE, AI_DEFENSIVE,
    BATTLE_STATE_ACTIVE, BATTLE_STATE_ESCAPED, BATTLE_STATE_HERO_LOST, BATTLE_STATE_HERO_WON,
    MIN_RANDOMNESS_DELAY_SLOTS,
};
use crate::errors::RpgError;
use crate::state::Attributes;
use crate::state::battle::Battle;
use crate::state::enemy_template::EnemyTemplate;
use crate::state::hero::Hero;
use crate::utils::math::{
    calculate_battle_priority, calculate_critical_damage, calculate_damage,
    calculate_escape_chance, critical_damage_of, damage_of, escape_chance_of,
};
use crate::utils::rng::{rng_check, rng_u16_of};
use crate::utils::slot_hashes::{
    is_slot_hashes_key, reveal_rejection, reveal_seed, slot_hash_of, slot_hashes_address,
};
use crate::utils::validation::{reveal_slot_of, validate_battle_action};

verus! {

/// What a resolved turn reports.
#[derive(Clone, Copy, Debug, PartialEq, Eq)]
pub struct BattleTurnExecuted {
    pub battle: Pubkey,
    /// The turn counter after the turn.
    pub turn: u8,
    pub hero_action: u8,
    /// The damage that the hero dealt, zero where it dealt none.
    pub hero_damage: u32,
    /// The damage that the enemy dealt, zero where it did not act.
    pub enemy_damage: u32,
    pub hero_hp: u32,
    pub enemy_hp: u32,
    pub battle_state: u8,
}

/// A turn as the rules resolve it: the battle after it and the damage that
/// each side dealt.
pub struct TurnResult {
    pub battle: Battle,
    pub hero_damage: u32,
    pub enemy_damage: u32,
}

/// The roll of a turn against a threshold in basis points.
pub open spec fn roll_of(seed: Seq<u8>, turn: u8) -> int {
    rng_u16_of(seed, turn) % 10000
}

/// The damage that the hero's action deals, or `None` where it deals none.
///
/// An attack is strength against vitality, doubled where the turn's roll is
/// under a hundred times the hero's precision. A skill is intelligence
/// against wisdom. Defending and escaping deal nothing.
pub open spec fn hero_damage_of(
    action: u8,
    hero: Attributes,
    enemy: Attributes,
    seed: Seq<u8>,
    turn: u8,
) -> Option<u32> {
    if action == ACTION_ATTACK {
        let base = damage_of(hero.strength as int, enemy.vitality as int);
        if roll_of(seed, turn) < hero.precision * 100 {
            Some(critical_damage_of(base) as u32)
        } else {
            Some(base as u32)
        }
    } else if action == ACTION_SKILL {
        Some(damage_of(hero.intelligence as int, enemy.wisdom as int) as u32)
    } else {
        None
    }
}

/// The hero chose to escape and the turn's roll lets it.
pub open spec fn hero_escapes(
    action: u8,
    hero: Attributes,
    enemy: Attributes,
    seed: Seq<u8>,
    turn: u8,
) -> bool {
    action == ACTION_ESCAPE && roll_of(seed, turn) < escape_chance_of(
        hero.agility as int,
        enemy.agility as int,
    )
}

/// The damage of the enemy's attack. An aggressive enemy strikes in full.
/// One that is not, and is defensive with less than a third of its hit
/// points, strikes at half strength. Any other strikes in full.
pub open spec fn enemy_damage_of(
    ai_flags: u8,
    enemy: Attributes,
    hero: Attributes,
    enemy_hp: u32,
    enemy_max_hp: u32,
) -> u32 {
    let full = damage_of(enemy.strength as int, hero.vitality as int);
    if ai_flags & AI_AGGRESSIVE != 0 {
        full as u32
    } else if ai_flags & AI_DEFENSIVE != 0 && enemy_hp < enemy_max_hp / 3 {
        (full / 2) as u32
    } else {
        full as u32
    }
}

/// The battle after the hero's action, and the damage dealt.
pub open spec fn after_hero_action(
    battle: Battle,
    action: u8,
    hero: Attributes,
    enemy: Attributes,
) -> (Battle, u32) {
    match hero_damage_of(action, hero, enemy, battle.rng_seed@, battle.turn) {
        Some(damage) => (battle.enemy_hit(damage), damage),
        None => if hero_escapes(action, hero, enemy, battle.rng_seed@, battle.turn) {
            (battle.escaped(), 0u32)
        } else {
            (battle, 0u32)
        },
    }
}

/// The battle after the enemy's action, and the damage dealt.
pub open spec fn after_enemy_action(
    battle: Battle,
    ai_flags: u8,
    hero: Attributes,
    enemy: Attributes,
) -> (Battle, u32) {
    let damage = enemy_damage_of(ai_flags, enemy, hero, battle.enemy_hp, battle.enemy_max_hp);
    (battle.hero_hit(damage), damage)
}

/// A turn of an active battle whose seed is bound.
pub open spec fn resolved_turn(
    battle: Battle,
    action: u8,
    hero: Attributes,
    enemy: Attributes,
    ai_flags: u8,
) -> TurnResult {
    if hero.agility >= enemy.agility {
        let (first, hero_damage) = after_hero_action(battle, action, hero, enemy);
        if first.state == BATTLE_STATE_ACTIVE {
            let (second, enemy_damage) = after_enemy_action(first, ai_flags, hero, enemy);
            TurnResult { battle: second.advanced(), hero_damage, enemy_damage }
        } else {
            TurnResult { battle: first.advanced(), hero_damage, enemy_damage: 0 }
        }
    } else {
        let (first, enemy_damage) = after_enemy_action(battle, ai_flags, hero, enemy);
        if first.state == BATTLE_STATE_ACTIVE {
            let (second, hero_damage) = after_hero_action(first, action, hero, enemy);
            TurnResult { battle: second.advanced(), hero_damage, enemy_damage }
        } else {
            TurnResult { battle: first.advanced(), hero_damage: 0, enemy_damage }
        }
    }
}

/// Why a turn is rejected, or `None` where it is resolved.
///
/// A battle that is no longer active takes no turn at all. Then come the
/// action code and the hit points of both sides. The first turn also has
/// to bind the battle's seed, and is rejected where that cannot be done.
pub open spec fn turn_rejection(
    battle: Battle,
    action: u8,
    current_slot: u64,
    table_is_sysvar: bool,
    data: Seq<u8>,
) -> Option<RpgError> {
    if battle.state != BATTLE_STATE_ACTIVE {
        Some(RpgError::BattleAlreadyCompleted)
    } else if action > ACTION_ESCAPE {
        Some(RpgError::InvalidBattleAction)
    } else if battle.hero_hp == 0 {
        Some(RpgError::HeroIsDead)
    } else if battle.enemy_hp == 0 {
        Some(RpgError::EnemyIsDead)
    } else if battle.turn == 0 {
        reveal_rejection(battle.commit_slot as int, current_slot as int, table_is_sysvar, data)
    } else {
        None
    }
}

/// The seed with which `battle` fights its turn: on the first turn the hash
/// that the entropy table gives for the battle's reveal slot, on a later
/// turn the seed that the battle has.
pub open spec fn turn_seed(battle: Battle, data: Seq<u8>) -> Seq<u8> {
    if battle.turn == 0 {
        slot_hash_of(data, reveal_slot_of(battle.commit_slot as int))
    } else {
        battle.rng_seed@
    }
}

/// What a call for a turn does: `before` and `after` are the battle on its
/// two sides, `executed` what the call returns.
///
/// A rejected turn is reported with its error and leaves the battle as it
/// was. A resolved turn fights with the seed of `turn_seed`, which is the
/// battle's seed from then on, and reports the damage of each side and the
/// battle's new turn counter, hit points and state.
pub open spec fn turn_outcome(
    before: Battle,
    after: Battle,
    executed: Result<BattleTurnExecuted, RpgError>,
    battle_key: Pubkey,
    hero: Attributes,
    enemy_template: EnemyTemplate,
    action: u8,
    current_slot: u64,
    table_is_sysvar: bool,
    data: Seq<u8>,
) -> bool {
    match turn_rejection(before, action, current_slot, table_is_sysvar, data) {
        Some(error) => executed == Err::<BattleTurnExecuted, RpgError>(error) && after == before,
        None => {
            let turn = resolved_turn(
                (Battle { rng_seed: after.rng_seed, ..before }),
                action,
                hero,
                enemy_template.base_attributes,
                enemy_template.ai_flags,
            );
            &&& after.rng_seed@ == turn_seed(before, data)
            &&& after == turn.battle
            &&& executed == Ok::<BattleTurnExecuted, RpgError>(
                BattleTurnExecuted {
                    battle: battle_key,
                    turn: after.turn,
                    hero_action: action,
                    hero_damage: turn.hero_damage,
                    enemy_damage: turn.enemy_damage,
                    hero_hp: after.hero_hp,
                    enemy_hp: after.enemy_hp,
                    battle_state: after.state,
                },
            )
        },
    }
}

/// The hero's action: the damage that it deals, if any. A successful
/// escape moves the battle to its escaped state; nothing else is changed
/// here.
pub fn execute_hero_action(
    action: u8,
    hero_attrs: &Attributes,
    enemy_attrs: &Attributes,
    battle: &mut Battle,
) -> (dealt: Result<Option<u32>, RpgError>)
    ensures
        action > ACTION_ESCAPE ==> dealt == Err::<Option<u32>, RpgError>(
            RpgError::InvalidBattleAction,
        ) && *final(battle) == *old(battle),
        action <= ACTION_ESCAPE ==> dealt == Ok::<Option<u32>, RpgError>(
            hero_damage_of(action, *hero_attrs, *enemy_attrs, old(battle).rng_seed@, old(battle).turn),
        ) && *final(battle) == if hero_escapes(
            action,
            *hero_attrs,
            *enemy_attrs,
            old(battle).rng_seed@,
            old(battle).turn,
        ) {
            old(battle).escaped()
        } else {
            *old(battle)
        },
{
    if action == ACTION_ATTACK {
        let damage: u32 = calculate_damage(hero_attrs.strength, enemy_attrs.vitality);
        // A precision past 655 gives a threshold over every roll.
        let crit_chance: u16 = if hero_attrs.precision <= 655 {
            hero_attrs.precision * 100
        } else {
            u16::MAX
        };
        if rng_check(&battle.rng_seed, battle.turn, crit_chance) {
            let crit_damage: u32 = calculate_critical_damage(damage);
            Ok(Some(crit_damage))
        } else {
            Ok(Some(damage))
        }
    } else if action == ACTION_DEFEND {
        Ok(None)
    } else if action == ACTION_SKILL {
        let damage: u32 = calculate_damage(hero_attrs.intelligence, enemy_attrs.wisdom);
        Ok(Some(damage))
    } else if action == ACTION_ESCAPE {
        let escape_chance: u16 = calculate_escape_chance(hero_attrs.agility, enemy_attrs.agility);
        if rng_check(&battle.rng_seed, battle.turn, escape_chance) {
            battle.escape_battle();
        }
        Ok(None)
    } else {
        Err(RpgError::InvalidBattleAction)
    }
}

/// The enemy's action: the damage of its attack. The enemy does not choose;
/// it always attacks, and never misses.
pub fn execute_enemy_action(
    enemy_template: &EnemyTemplate,
    enemy_attrs: &Attributes,
    hero_attrs: &Attributes,
    battle: &Battle,
) -> (damage: u32)
    ensures
        damage == enemy_damage_of(
            enemy_template.ai_flags,
            *enemy_attrs,
            *hero_attrs,
            battle.enemy_hp,
            battle.enemy_max_hp,
        ),
{
    if enemy_template.is_aggressive() {
        calculate_damage(enemy_attrs.strength, hero_attrs.vitality)
    } else if enemy_template.is_defensive() && battle.enemy_hp < battle.enemy_max_hp / 3 {
        calculate_damage(enemy_attrs.strength, hero_attrs.vitality) / 2
    } else {
        calculate_damage(enemy_attrs.strength, hero_attrs.vitality)
    }
}

/// Resolves one turn of `battle` with the hero's `action`.
///
/// `table_is_sysvar` says whether the account that `slot_hashes_data` was
/// read from is the slot hashes sysvar; only the first turn, which binds
/// the battle's seed, reads either. A turn that is rejected leaves the
/// battle as it was.
pub fn resolve_battle_turn(
    battle_key: Pubkey,
    battle: &mut Battle,
    hero: &Hero,
    enemy_template: &EnemyTemplate,
    action: u8,
    current_slot: u64,
    table_is_sysvar: bool,
    slot_hashes_data: &[u8],
) -> (executed: Result<BattleTurnExecuted, RpgError>)
    ensures
        turn_outcome(
            *old(battle),
            *final(battle),
            executed,
            battle_key,
            hero.base_attributes,
            *enemy_template,
            action,
            current_slot,
            table_is_sysvar,
            slot_hashes_data@,
        ),
        old(battle).well_formed() ==> final(battle).well_formed(),
{
    if !battle.is_active() {
        return Err(RpgError::BattleAlreadyCompleted);
    }
    match validate_battle_action(action) {
        Err(error) => {
            return Err(error);
        },
        Ok(()) => {},
    }
    if !battle.is_hero_alive() {
        return Err(RpgError::HeroIsDead);
    }
    if !battle.is_enemy_alive() {
        return Err(RpgError::EnemyIsDead);
    }
    if battle.turn == 0 {
        match reveal_seed(battle.commit_slot, current_slot, table_is_sysvar, slot_hashes_data) {
            Err(error) => {
                return Err(error);
            },
            Ok(seed) => {
                battle.rng_seed = seed;
            },
        }
    }
    let hero_attrs = hero.calculate_total_attributes();
    let enemy_attrs = enemy_template.base_attributes;
    let hero_goes_first = calculate_battle_priority(hero_attrs.agility, enemy_attrs.agility);

    let mut hero_damage: u32 = 0;
    let mut enemy_damage: u32 = 0;

    if hero_goes_first {
        match execute_hero_action(action, &hero_attrs, &enemy_attrs, battle) {
            Ok(Some(damage)) => {
                hero_damage = damage;
                battle.damage_enemy(damage);
            },
            Ok(None) => {},
            Err(error) => {
                return Err(error);
            },
        }
        if battle.is_active() {
            enemy_damage = execute_enemy_action(enemy_template, &enemy_attrs, &hero_attrs, battle);
            battle.damage_hero(enemy_damage);
        }
    } else {
        enemy_damage = execute_enemy_action(enemy_template, &enemy_attrs, &hero_attrs, battle);
        battle.damage_hero(enemy_damage);
        if battle.is_active() {
            match execute_hero_action(action, &hero_attrs, &enemy_attrs, battle) {
                Ok(Some(damage)) => {
                    hero_damage = damage;
                    battle.damage_enemy(damage);
                },
                Ok(None) => {},
                Err(error) => {
                    return Err(error);
                },
            }
        }
    }

    battle.next_turn();

    Ok(
        BattleTurnExecuted {
            battle: battle_key,
            turn: battle.turn,
            hero_action: action,
            hero_damage,
            enemy_damage,
            hero_hp: battle.hero_hp,
            enemy_hp: battle.enemy_hp,
            battle_state: battle.state,
        },
    )
}

/// Resolves one turn of `battle` with the hero's `action`, reading the
/// entropy from the account with the address `slot_hashes_key` and the
/// contents `slot_hashes_data`.
pub fn battle_turn(
    battle_key: Pubkey,
    battle: &mut Battle,
    hero: &Hero,
    enemy_template: &EnemyTemplate,
    action: u8,
    current_slot: u64,
    slot_hashes_key: &Pubkey,
    slot_hashes_data: &[u8],
) -> (executed: Result<BattleTurnExecuted, RpgError>)
    ensures
        turn_outcome(
            *old(battle),
            *final(battle),
            executed,
            battle_key,
            hero.base_attributes,
            *enemy_template,
            action,
            current_slot,
            slot_hashes_address(*slot_hashes_key),
            slot_hashes_data@,
        ),
        old(battle).well_formed() ==> final(battle).well_formed(),
{
    let table_is_sysvar = is_slot_hashes_key(slot_hashes_key);
    resolve_battle_turn(
        battle_key,
        battle,
        hero,
        enemy_template,
        action,
        current_slot,
        table_is_sysvar,
        slot_hashes_data,
    )
}

/// A killing blow by the hero ends the turn: where the hero acts first and
/// its action takes the enemy's last hit points, the enemy does not act. It
/// deals no damage, the hero's hit points stay as they were, and the battle
/// is won.
pub proof fn lemma_killing_blow_ends_turn(
    battle: Battle,
    action: u8,
    hero: Attributes,
    enemy: Attributes,
    ai_flags: u8,
)
    requires
        hero.agility >= enemy.agility,
        hero_damage_of(action, hero, enemy, battle.rng_seed@, battle.turn).is_some(),
        hero_damage_of(action, hero, enemy, battle.rng_seed@, battle.turn).unwrap()
            >= battle.enemy_hp,
    ensures
        resolved_turn(battle, action, hero, enemy, ai_flags).enemy_damage == 0,
        resolved_turn(battle, action, hero, enemy, ai_flags).battle.hero_hp == battle.hero_hp,
        resolved_turn(battle, action, hero, enemy, ai_flags).battle.enemy_hp == 0,
        resolved_turn(battle, action, hero, enemy, ai_flags).battle.state == BATTLE_STATE_HERO_WON,
{
}

/// A successful escape ends the turn: where the hero acts first and
/// escapes, the enemy does not act, and neither side loses a hit point.
pub proof fn lemma_escape_ends_turn(
    battle: Battle,
    action: u8,
    hero: Attributes,
    enemy: Attributes,
    ai_flags: u8,
)
    requires
        hero.agility >= enemy.agility,
        hero_escapes(action, hero, enemy, battle.rng_seed@, battle.turn),
    ensures
        resolved_turn(battle, action, hero, enemy, ai_flags).enemy_damage == 0,
        resolved_turn(battle, action, hero, enemy, ai_flags).hero_damage == 0,
        resolved_turn(battle, action, hero, enemy, ai_flags).battle == battle.escaped().advanced(),
{
}

/// A terminal state is permanent: a battle that is won, lost or escaped
/// from takes no further turn, whatever the caller hands in.
pub proof fn lemma_terminal_state_permanent(
    battle: Battle,
    action: u8,
    current_slot: u64,
    table_is_sysvar: bool,
    data: Seq<u8>,
)
    requires
        battle.terminal(),
    ensures
        turn_rejection(battle, action, current_slot, table_is_sysvar, data) == Some(
            RpgError::BattleAlreadyCompleted,
        ),
{
}

/// The first turn binds no seed before the minimum delay has passed: such
/// a turn of a battle that could fight is rejected as not ready yet.
pub proof fn lemma_first_turn_too_early(
    battle: Battle,
    action: u8,
    current_slot: u64,
    table_is_sysvar: bool,
    data: Seq<u8>,
)
    requires
        battle.state == BATTLE_STATE_ACTIVE,
        action <= ACTION_ESCAPE,
        battle.hero_hp > 0,
        battle.enemy_hp > 0,
        battle.turn == 0,
        current_slot < battle.commit_slot + MIN_RANDOMNESS_DELAY_SLOTS,
    ensures
        turn_rejection(battle, action, current_slot, table_is_sysvar, data) == Some(
            RpgError::RandomnessNotResolved,
        ),
{
}

/// A seed is bound once. A resolved turn leaves the turn counter above
/// zero, and a turn of a battle whose counter is above zero keeps the seed
/// that the battle has: no later turn can bind another.
pub proof fn lemma_seed_bound_once(
    before: Battle,
    after: Battle,
    executed: Result<BattleTurnExecuted, RpgError>,
    battle_key: Pubkey,
    hero: Attributes,
    enemy_template: EnemyTemplate,
    action: u8,
    current_slot: u64,
    table_is_sysvar: bool,
    data: Seq<u8>,
)
    requires
        turn_outcome(
            before,
            after,
            executed,
            battle_key,
            hero,
            enemy_template,
            action,
            current_slot,
            table_is_sysvar,
            data,
        ),
    ensures
        executed.is_ok() ==> after.turn > 0,
        before.turn > 0 ==> after.rng_seed@ == before.rng_seed@,
        executed.is_err() ==> after == before,
{
}

/// After a turn the state says what the hit points say. Where both sides
/// were alive in an active battle, the battle is won exactly where the
/// enemy has no hit points left, lost exactly where the hero has none
/// left, and never both; an escape leaves both sides alive.
pub proof fn lemma_state_follows_hit_points(
    battle: Battle,
    action: u8,
    hero: Attributes,
    enemy: Attributes,
    ai_flags: u8,
)
    requires
        battle.state == BATTLE_STATE_ACTIVE,
        battle.hero_hp > 0,
        battle.enemy_hp > 0,
    ensures
        ({
            let after = resolved_turn(battle, action, hero, enemy, ai_flags).battle;
            &&& after.state == BATTLE_STATE_HERO_WON <==> after.enemy_hp == 0
            &&& after.state == BATTLE_STATE_HERO_LOST <==> after.hero_hp == 0
            &&& !(after.hero_hp == 0 && after.enemy_hp == 0)
            &&& after.state == BATTLE_STATE_ACTIVE || after.state == BATTLE_STATE_HERO_WON
                || after.state == BATTLE_STATE_HERO_LOST || after.state == BATTLE_STATE_ESCAPED
        }),
{
}

/// Attacks end a battle. Each turn with an attack or a skill that leaves
/// the battle active has cost the enemy at least one hit point, so a battle
/// fought with them is over after as many turns as the enemy has hit points,
/// or sooner.
pub proof fn lemma_attack_makes_progress(
    battle: Battle,
    action: u8,
    hero: Attributes,
    enemy: Attributes,
    ai_flags: u8,
)
    requires
        battle.state == BATTLE_STATE_ACTIVE,
        battle.hero_hp > 0,
        battle.enemy_hp > 0,
        action == ACTION_ATTACK || action == ACTION_SKILL,
    ensures
        resolved_turn(battle, action, hero, enemy, ai_flags).battle.state == BATTLE_STATE_ACTIVE
            ==> resolved_turn(battle, action, hero, enemy, ai_flags).battle.enemy_hp
            < battle.enemy_hp,
{
}

/// A turn takes hit points and gives none back, and fights with the seed
/// that the battle has: neither side has more hit points after a turn than
/// before it, and the seed is the same.
pub proof fn lemma_turn_only_takes_hit_points(
    battle: Battle,
    action: u8,
    hero: Attributes,
    enemy: Attributes,
    ai_flags: u8,
)
    ensures
        resolved_turn(battle, action, hero, enemy, ai_flags).battle.hero_hp <= battle.hero_hp,
        resolved_turn(battle, action, hero, enemy, ai_flags).battle.enemy_hp <= battle.enemy_hp,
        resolved_turn(battle, action, hero, enemy, ai_flags).battle.rng_seed == battle.rng_seed,
{
}

} // verus!
