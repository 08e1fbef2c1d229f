use rpg_program::constants::BASE_ESCAPE_CHANCE;
use rpg_program::state::Attributes;
use rpg_program::utils::math::{
    calculate_battle_priority, calculate_critical_damage, calculate_damage,
    calculate_effective_attributes, calculate_escape_chance, calculate_hp, calculate_xp_required,
};

#[test]
fn test_calculate_damage() {
    let damage = calculate_damage(100, 20);
    assert_eq!(damage, 90);

    let min_damage = calculate_damage(5, 20);
    assert_eq!(min_damage, 1);
}

#[test]
fn test_calculate_critical_damage() {
    let crit_damage = calculate_critical_damage(50);
    assert_eq!(crit_damage, 100);
}

#[test]
fn test_calculate_escape_chance() {
    let chance = calculate_escape_chance(20, 10);
    assert!(chance > BASE_ESCAPE_CHANCE);

    let chance_low = calculate_escape_chance(10, 20);
    assert_eq!(chance_low, BASE_ESCAPE_CHANCE);
}

#[test]
fn test_calculate_hp() {
    let hp = calculate_hp(50);
    assert_eq!(hp, 500);
}

#[test]
fn test_calculate_xp_required() {
    let xp = calculate_xp_required(0);
    assert_eq!(xp, 1000);

    let xp_level_2 = calculate_xp_required(1);
    assert_eq!(xp_level_2, 2000);
}

#[test]
fn damage_is_attack_less_half_defense() {
    assert_eq!(calculate_damage(100, 21), 90);
    assert_eq!(calculate_damage(100, 0), 100);
    assert_eq!(calculate_damage(65535, 0), 65535);
    assert_eq!(calculate_damage(65535, 65535), 32768);
    assert_eq!(calculate_damage(10, 18), 1);
    assert_eq!(calculate_damage(10, 17), 2);
}

#[test]
fn damage_is_never_zero() {
    let stats: [u16; 7] = [0, 1, 2, 3, 100, 32767, 65535];
    for attack in stats {
        for defense in stats {
            assert!(calculate_damage(attack, defense) >= 1);
        }
    }
    assert_eq!(calculate_damage(0, 0), 1);
    assert_eq!(calculate_damage(0, 65535), 1);
}

#[test]
fn critical_damage_doubles_and_saturates() {
    assert_eq!(calculate_critical_damage(0), 0);
    assert_eq!(calculate_critical_damage(1), 2);
    assert_eq!(calculate_critical_damage(2147483647), 4294967294);
    assert_eq!(calculate_critical_damage(2147483648), u32::MAX);
    assert_eq!(calculate_critical_damage(u32::MAX), u32::MAX);
}

#[test]
fn escape_chance_adds_one_percent_per_point() {
    assert_eq!(calculate_escape_chance(20, 10), 4000);
    assert_eq!(calculate_escape_chance(11, 10), 3100);
    assert_eq!(calculate_escape_chance(59, 10), 7900);
    assert_eq!(calculate_escape_chance(60, 10), 8000);
}

#[test]
fn escape_chance_without_advantage_is_base() {
    assert_eq!(calculate_escape_chance(10, 10), 3000);
    assert_eq!(calculate_escape_chance(0, 65535), 3000);
    assert_eq!(calculate_escape_chance(0, 0), 3000);
    assert_eq!(calculate_escape_chance(65535, 65535), 3000);
}

#[test]
fn escape_chance_is_capped() {
    assert_eq!(calculate_escape_chance(61, 10), 8000);
    assert_eq!(calculate_escape_chance(65535, 0), 8000);
    assert_eq!(calculate_escape_chance(666, 10), 8000);
    let stats: [u16; 6] = [0, 1, 50, 51, 656, 65535];
    for hero in stats {
        for enemy in stats {
            let chance = calculate_escape_chance(hero, enemy);
            assert!(chance >= 1000 && chance <= 8000);
        }
    }
}

#[test]
fn hp_and_xp_at_the_extremes() {
    assert_eq!(calculate_hp(0), 0);
    assert_eq!(calculate_hp(10), 100);
    assert_eq!(calculate_hp(65535), 655350);
    assert_eq!(calculate_xp_required(99), 100000);
    assert_eq!(calculate_xp_required(65535), 65536000);
}

#[test]
fn priority_goes_to_the_hero_on_a_tie() {
    assert!(calculate_battle_priority(10, 10));
    assert!(calculate_battle_priority(11, 10));
    assert!(!calculate_battle_priority(9, 10));
}

#[test]
fn effective_attributes_add_the_bonus() {
    let base = Attributes::new_base();
    let bonus = Attributes {
        strength: 5,
        dexterity: 0,
        vitality: 65535,
        intelligence: 1,
        wisdom: 2,
        agility: 3,
        precision: 4,
        luck: 65530,
    };
    assert_eq!(calculate_effective_attributes(&base, None), base);
    let effective = calculate_effective_attributes(&base, Some(&bonus));
    assert_eq!(
        effective,
        Attributes {
            strength: 15,
            dexterity: 10,
            vitality: 65535,
            intelligence: 11,
            wisdom: 12,
            agility: 13,
            precision: 14,
            luck: 65535,
        }
    );
}
