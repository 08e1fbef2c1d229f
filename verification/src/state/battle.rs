//! The record of one battle.

use vstd::prelude::*;
use anchor_lang::prelude::Pubkey;
use crate::constants::{
    BATTLE_STATE_ACTIVE, BATTLE_STATE_ESCAPED, BATTLE_STATE_HERO_LOST, BATTLE_STATE_HERO_WON,
};

verus! {

/// One battle of a hero against an enemy template.
///
/// The battle is a commit-reveal session: it is created with an all-zero
/// seed at `commit_slot`, and its first turn binds the entropy of a later
/// slot as the seed. From then on the seed stays as it is.
#[derive(Debug, PartialEq, Eq)]
pub struct Battle {
    pub hero: Pubkey,
    pub enemy_template: Pubkey,
    pub hero_hp: u32,
    pub enemy_hp: u32,
    pub hero_max_hp: u32,
    pub enemy_max_hp: u32,
    pub rng_seed: [u8; 32],
    pub turn: u8,
    pub state: u8,
    pub nonce: u64,
    pub commit_slot: u64,
    pub created_at: i64,
    pub bump: u8,
}

/// The seed of a session to which no entropy has been bound.
pub open spec fn zero_seed() -> Seq<u8> {
    Seq::new(32, |i: int| 0u8)
}

/// What is left of `hp` hit points after `damage`: never less than zero.
pub open spec fn hp_after(hp: u32, damage: u32) -> u32 {
    if damage >= hp {
        0
    } else {
        (hp - damage) as u32
    }
}

impl Battle {
    /// Neither side has more hit points than its maximum, and a battle that
    /// has seen no turn has no seed bound.
    pub open spec fn well_formed(&self) -> bool {
        &&& self.hero_hp <= self.hero_max_hp
        &&& self.enemy_hp <= self.enemy_max_hp
        &&& self.turn == 0 ==> self.rng_seed@ == zero_seed()
    }

    /// The battle has left the active state: it is won, lost or escaped
    /// from.
    pub open spec fn terminal(&self) -> bool {
        self.state != BATTLE_STATE_ACTIVE
    }

    /// The battle after the hero has taken `damage`.
    pub open spec fn hero_hit(self, damage: u32) -> Battle {
        Battle {
            hero_hp: hp_after(self.hero_hp, damage),
            state: if damage >= self.hero_hp {
                BATTLE_STATE_HERO_LOST
            } else {
                self.state
            },
            ..self
        }
    }

    /// The battle after the enemy has taken `damage`.
    pub open spec fn enemy_hit(self, damage: u32) -> Battle {
        Battle {
            enemy_hp: hp_after(self.enemy_hp, damage),
            state: if damage >= self.enemy_hp {
                BATTLE_STATE_HERO_WON
            } else {
                self.state
            },
            ..self
        }
    }

    /// The battle after the hero has escaped from it.
    pub open spec fn escaped(self) -> Battle {
        Battle { state: BATTLE_STATE_ESCAPED, ..self }
    }

    /// The battle with its turn counter advanced. The counter stays at 255
    /// once it is there.
    pub open spec fn advanced(self) -> Battle {
        Battle {
            turn: if self.turn == u8::MAX {
                u8::MAX
            } else {
                (self.turn + 1) as u8
            },
            ..self
        }
    }

    pub fn is_active(&self) -> (active: bool)
        ensures
            active == (self.state == BATTLE_STATE_ACTIVE),
    {
        self.state == BATTLE_STATE_ACTIVE
    }

    pub fn is_hero_alive(&self) -> (alive: bool)
        ensures
            alive == (self.hero_hp > 0),
    {
        self.hero_hp > 0
    }

    pub fn is_enemy_alive(&self) -> (alive: bool)
        ensures
            alive == (self.enemy_hp > 0),
    {
        self.enemy_hp > 0
    }

    pub fn set_state(&mut self, new_state: u8)
        ensures
            *final(self) == (Battle { state: new_state, ..*old(self) }),
            old(self).well_formed() ==> final(self).well_formed(),
    {
        self.state = new_state;
    }

    /// Takes `damage` off the hero's hit points, stopping at zero. A hero
    /// that reaches zero has lost.
    pub fn damage_hero(&mut self, damage: u32)
        ensures
            *final(self) == old(self).hero_hit(damage),
            old(self).well_formed() ==> final(self).well_formed(),
    {
        self.hero_hp = self.hero_hp.saturating_sub(damage);
        if self.hero_hp == 0 {
            self.state = BATTLE_STATE_HERO_LOST;
        }
    }

    /// Takes `damage` off the enemy's hit points, stopping at zero. Against
    /// an enemy that reaches zero the hero has won.
    pub fn damage_enemy(&mut self, damage: u32)
        ensures
            *final(self) == old(self).enemy_hit(damage),
            old(self).well_formed() ==> final(self).well_formed(),
    {
        self.enemy_hp = self.enemy_hp.saturating_sub(damage);
        if self.enemy_hp == 0 {
            self.state = BATTLE_STATE_HERO_WON;
        }
    }

    /// Advances the turn counter, which stays at 255 once it is there.
    pub fn next_turn(&mut self)
        ensures
            *final(self) == old(self).advanced(),
            old(self).well_formed() ==> final(self).well_formed(),
    {
        self.turn = self.turn.saturating_add(1);
    }

    pub fn escape_battle(&mut self)
        ensures
            *final(self) == old(self).escaped(),
            old(self).well_formed() ==> final(self).well_formed(),
    {
        self.state = BATTLE_STATE_ESCAPED;
    }
}

} // verus!
