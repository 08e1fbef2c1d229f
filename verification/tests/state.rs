use anchor_lang::prelude::Pubkey;
use rpg_program::constants::{
    AI_AGGRESSIVE, AI_BALANCED, AI_DEFENSIVE, ITEM_TYPE_ACCESSORY, ITEM_TYPE_ARMOR,
    ITEM_TYPE_WEAPON,
};
use rpg_program::errors::RpgError;
use rpg_program::state::{
    Attributes, EnemyTemplate, Hero, Item, Player, RevenueType, RollSession, Treasury,
};

fn state_key(tag: u8) -> Pubkey {
    Pubkey::new_from_array([tag; 32])
}

fn state_name(bytes: &[u8]) -> [u8; 32] {
    let mut name = [0u8; 32];
    name[..bytes.len()].copy_from_slice(bytes);
    name
}

fn state_hero(level: u16, xp: u32) -> Hero {
    Hero {
        owner: state_key(1),
        player: state_key(2),
        index: 0,
        level,
        xp,
        base_attributes: Attributes::new_base(),
        equipped_weapon: None,
        equipped_armor: None,
        equipped_accessory: None,
        total_battles: 0,
        total_victories: 0,
        created_at: 0,
        bump: 255,
    }
}

fn state_enemy(name: [u8; 32], ai_flags: u8) -> EnemyTemplate {
    EnemyTemplate {
        id: 1,
        name,
        level: 1,
        base_attributes: Attributes::new_base(),
        ai_flags,
        xp_reward: 150,
        created_at: 0,
        bump: 254,
    }
}

fn state_player() -> Player {
    Player {
        authority: state_key(1),
        hero_count: 0,
        total_battles: 0,
        total_victories: 0,
        total_xp_earned: 0,
        total_sol_spent: 0,
        created_at: 0,
        bump: 253,
    }
}

#[test]
fn base_attributes_are_ten_each() {
    let base = Attributes::new_base();
    assert_eq!(
        base,
        Attributes {
            strength: 10,
            dexterity: 10,
            vitality: 10,
            intelligence: 10,
            wisdom: 10,
            agility: 10,
            precision: 10,
            luck: 10,
        }
    );
    assert_eq!(base.total(), 80);
    assert_eq!(Attributes::default().total(), 0);
}

#[test]
fn attributes_add_stat_by_stat_and_saturate() {
    let mut attributes = Attributes {
        strength: 1,
        dexterity: 2,
        vitality: 3,
        intelligence: 4,
        wisdom: 5,
        agility: 6,
        precision: 65535,
        luck: 65000,
    };
    attributes.add(&Attributes {
        strength: 10,
        dexterity: 20,
        vitality: 30,
        intelligence: 40,
        wisdom: 50,
        agility: 60,
        precision: 1,
        luck: 536,
    });
    assert_eq!(
        attributes,
        Attributes {
            strength: 11,
            dexterity: 22,
            vitality: 33,
            intelligence: 44,
            wisdom: 55,
            agility: 66,
            precision: 65535,
            luck: 65535,
        }
    );
}

#[test]
fn the_total_of_the_largest_attributes() {
    let attributes = Attributes {
        strength: 65535,
        dexterity: 65535,
        vitality: 65535,
        intelligence: 65535,
        wisdom: 65535,
        agility: 65535,
        precision: 65535,
        luck: 65535,
    };
    assert_eq!(attributes.total(), 524280);
}

#[test]
fn a_hero_levels_up_when_it_has_the_experience() {
    let mut hero = state_hero(1, 2000);
    assert_eq!(hero.xp_required_for_next_level(), 2000);
    assert!(hero.can_level_up());
    assert_eq!(hero.level_up(), Ok(5));
    assert_eq!(hero.level, 2);
    assert_eq!(hero.xp, 0);

    let mut hero = state_hero(3, 4500);
    assert_eq!(hero.level_up(), Ok(5));
    assert_eq!(hero.level, 4);
    assert_eq!(hero.xp, 500);
}

#[test]
fn a_hero_without_the_experience_stays() {
    let mut hero = state_hero(1, 1999);
    assert!(!hero.can_level_up());
    assert_eq!(hero.level_up(), Err(RpgError::InsufficientXp));
    assert_eq!(hero, state_hero(1, 1999));
}

#[test]
fn a_hero_at_the_highest_level_stays() {
    let mut hero = state_hero(100, u32::MAX);
    assert!(!hero.can_level_up());
    assert_eq!(hero.level_up(), Err(RpgError::InsufficientXp));
    assert_eq!(hero, state_hero(100, u32::MAX));
    let mut hero = state_hero(99, 100000);
    assert_eq!(hero.level_up(), Ok(5));
    assert_eq!(hero.level, 100);
    assert_eq!(hero.xp, 0);
}

#[test]
fn experience_and_battle_counts_saturate() {
    let mut hero = state_hero(1, u32::MAX - 5);
    hero.add_xp(3);
    assert_eq!(hero.xp, u32::MAX - 2);
    hero.add_xp(3);
    assert_eq!(hero.xp, u32::MAX);

    hero.total_battles = u32::MAX;
    hero.add_battle_stats(true);
    assert_eq!(hero.total_battles, u32::MAX);
    assert_eq!(hero.total_victories, 1);
    hero.add_battle_stats(false);
    assert_eq!(hero.total_victories, 1);
}

#[test]
fn a_hero_fights_with_its_base_attributes() {
    let mut hero = state_hero(1, 0);
    hero.base_attributes.vitality = 37;
    hero.equipped_weapon = Some(state_key(7));
    assert_eq!(hero.calculate_hp(), 370);
    assert_eq!(hero.calculate_total_attributes(), hero.base_attributes);
}

#[test]
fn an_item_goes_into_the_slot_of_its_type() {
    let mut hero = state_hero(1, 0);
    assert_eq!(hero.equip_item(ITEM_TYPE_WEAPON, state_key(7)), Ok(()));
    assert_eq!(hero.equip_item(ITEM_TYPE_ARMOR, state_key(8)), Ok(()));
    assert_eq!(hero.equip_item(ITEM_TYPE_ACCESSORY, state_key(9)), Ok(()));
    assert_eq!(hero.equipped_weapon, Some(state_key(7)));
    assert_eq!(hero.equipped_armor, Some(state_key(8)));
    assert_eq!(hero.equipped_accessory, Some(state_key(9)));
    assert_eq!(hero.equip_item(ITEM_TYPE_WEAPON, state_key(10)), Ok(()));
    assert_eq!(hero.equipped_weapon, Some(state_key(10)));

    assert_eq!(hero.unequip_item(ITEM_TYPE_ARMOR), Ok(Some(state_key(8))));
    assert_eq!(hero.equipped_armor, None);
    assert_eq!(hero.unequip_item(ITEM_TYPE_ARMOR), Ok(None));
    assert_eq!(hero.unequip_item(ITEM_TYPE_WEAPON), Ok(Some(state_key(10))));
    assert_eq!(hero.unequip_item(ITEM_TYPE_ACCESSORY), Ok(Some(state_key(9))));
    assert_eq!(hero, state_hero(1, 0));
}

#[test]
fn an_unknown_item_type_is_rejected() {
    let mut hero = state_hero(1, 0);
    hero.equipped_weapon = Some(state_key(7));
    let before = hero;
    assert_eq!(hero.equip_item(3, state_key(8)), Err(RpgError::WrongItemType));
    assert_eq!(hero.unequip_item(3), Err(RpgError::WrongItemType));
    assert_eq!(hero.unequip_item(255), Err(RpgError::WrongItemType));
    assert_eq!(hero, before);
}

#[test]
fn a_player_has_room_for_five_heroes() {
    let mut player = state_player();
    for count in 0..5u8 {
        assert_eq!(player.hero_count, count);
        assert!(player.can_add_hero());
        player.add_hero();
    }
    assert_eq!(player.hero_count, 5);
    assert!(!player.can_add_hero());
    player.hero_count = 255;
    player.add_hero();
    assert_eq!(player.hero_count, 255);
}

#[test]
fn a_players_totals_saturate() {
    let mut player = state_player();
    player.add_battle_stats(true, 150);
    player.add_battle_stats(false, 0);
    assert_eq!(player.total_battles, 2);
    assert_eq!(player.total_victories, 1);
    assert_eq!(player.total_xp_earned, 150);
    player.add_battle_stats(true, u64::MAX);
    assert_eq!(player.total_xp_earned, u64::MAX);
    player.add_sol_spent(7);
    player.add_sol_spent(u64::MAX - 3);
    assert_eq!(player.total_sol_spent, u64::MAX);
    player.total_battles = u64::MAX;
    player.add_battle_stats(false, 0);
    assert_eq!(player.total_battles, u64::MAX);
    assert_eq!(player.total_victories, 2);
}

#[test]
fn the_treasury_counts_each_kind_of_sale() {
    let mut treasury = Treasury {
        authority: state_key(9),
        total_collected: 0,
        total_battles: 0,
        total_rolls: 0,
        total_heroes_created: 0,
        created_at: 0,
        bump: 252,
    };
    treasury.add_revenue(50, RevenueType::Battle);
    treasury.add_revenue(100, RevenueType::Roll);
    treasury.add_revenue(100, RevenueType::Roll);
    treasury.add_revenue(1000, RevenueType::Hero);
    assert_eq!(treasury.total_collected, 1250);
    assert_eq!(treasury.total_battles, 1);
    assert_eq!(treasury.total_rolls, 2);
    assert_eq!(treasury.total_heroes_created, 1);
    treasury.add_revenue(u64::MAX, RevenueType::Hero);
    assert_eq!(treasury.total_collected, u64::MAX);
    assert_eq!(treasury.total_heroes_created, 2);
}

#[test]
fn a_roll_session_is_completed_with_both_rewards() {
    let mut session = RollSession {
        hero: state_key(3),
        player: state_key(2),
        nonce: 9,
        commit_slot: 10,
        state: 0,
        reward_rarity: None,
        reward_xp: None,
        created_at: 500,
        bump: 200,
    };
    assert!(session.is_pending());
    assert!(!session.is_completed());
    session.complete_roll(4, 2000);
    assert!(!session.is_pending());
    assert!(session.is_completed());
    assert_eq!(session.reward_rarity, Some(4));
    assert_eq!(session.reward_xp, Some(2000));
    assert_eq!(session.commit_slot, 10);
    assert_eq!(session.nonce, 9);
}

#[test]
fn the_behaviour_flags_are_bits() {
    let aggressive = state_enemy(state_name(b"a"), AI_AGGRESSIVE);
    assert!(aggressive.is_aggressive());
    assert!(!aggressive.is_defensive());
    assert!(aggressive.is_balanced());
    let defensive = state_enemy(state_name(b"d"), AI_DEFENSIVE);
    assert!(!defensive.is_aggressive());
    assert!(defensive.is_defensive());
    assert!(defensive.is_balanced());
    let balanced = state_enemy(state_name(b"b"), AI_BALANCED);
    assert!(balanced.is_aggressive());
    assert!(balanced.is_defensive());
    assert!(balanced.is_balanced());
    let none = state_enemy(state_name(b"n"), 0);
    assert!(!none.is_aggressive());
    assert!(!none.is_defensive());
    assert!(!none.is_balanced());
    let other = state_enemy(state_name(b"o"), 4);
    assert!(!other.is_aggressive());
    assert!(!other.is_defensive());
    assert!(!other.is_balanced());
}

#[test]
fn an_enemys_hit_points_are_ten_per_vitality() {
    let mut enemy = state_enemy(state_name(b"Goblin"), AI_AGGRESSIVE);
    assert_eq!(enemy.calculate_hp(), 100);
    enemy.base_attributes.vitality = 65535;
    assert_eq!(enemy.calculate_hp(), 655350);
    enemy.base_attributes.vitality = 0;
    assert_eq!(enemy.calculate_hp(), 0);
}

#[test]
fn a_name_is_read_without_its_padding() {
    let enemy = state_enemy(state_name(b"Goblin"), AI_AGGRESSIVE);
    assert_eq!(enemy.get_name_string(), "Goblin");
    assert_eq!(enemy.get_name_string().len(), 6);
    let full = state_enemy([b'x'; 32], AI_AGGRESSIVE);
    assert_eq!(full.get_name_string(), "x".repeat(32));
    let blank = state_enemy([0u8; 32], AI_AGGRESSIVE);
    assert_eq!(blank.get_name_string(), "");
}

#[test]
fn only_the_padding_at_the_end_is_dropped() {
    let enemy = state_enemy(state_name(b"\0Orc\0King"), AI_AGGRESSIVE);
    assert_eq!(enemy.get_name_string(), "\0Orc\0King");
}

#[test]
fn bytes_that_are_no_text_are_replaced() {
    let enemy = state_enemy(state_name(&[b'A', 0xff, b'B']), AI_AGGRESSIVE);
    assert_eq!(enemy.get_name_string(), "A\u{fffd}B");
    let accented = state_enemy(state_name("Zo\u{eb}".as_bytes()), AI_AGGRESSIVE);
    assert_eq!(accented.get_name_string(), "Zo\u{eb}");
    // A sequence cut short by the padding.
    let cut = state_enemy(state_name(&[b'A', 0xe2, 0x82]), AI_AGGRESSIVE);
    assert_eq!(cut.get_name_string(), "A\u{fffd}");
}

#[test]
fn an_item_knows_its_type_and_name() {
    let mut item = Item {
        hero: state_key(3),
        item_type: ITEM_TYPE_WEAPON,
        rarity: 2,
        name: state_name(b"Sword"),
        bonus_attributes: Attributes::default(),
        created_at: 0,
        bump: 1,
    };
    assert!(item.is_weapon() && !item.is_armor() && !item.is_accessory());
    assert_eq!(item.get_name_string(), "Sword");
    item.item_type = ITEM_TYPE_ARMOR;
    assert!(!item.is_weapon() && item.is_armor() && !item.is_accessory());
    item.item_type = ITEM_TYPE_ACCESSORY;
    assert!(!item.is_weapon() && !item.is_armor() && item.is_accessory());
    item.item_type = 3;
    assert!(!item.is_weapon() && !item.is_armor() && !item.is_accessory());
}
