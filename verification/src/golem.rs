use vstd::prelude::*;

use crate::entity::{to_goal_ticks, Entity};
use crate::rng::random_range_i32;

verus! {

/// Ticks an iron golem holds out a flower.
pub const OFFER_FLOWER_TICKS: i32 = 400;

/// Ticks of the iron golem's attack animation.
pub const ATTACK_ANIMATION_TICKS: i32 = 10;

/// A villager's reputation of a player at or below which golems attack him.
pub const HOSTILE_REPUTATION: i32 = -100;

/// The entity status a golem sends when it holds out or takes back a flower.
#[derive(Clone, Copy, Debug, PartialEq, Eq, Structural)]
pub enum FlowerStatus {
    OfferFlower,
    StopOfferFlower,
}

pub struct IronGolemEntity {
    pub entity: Entity,
    pub player_created: bool,
    pub attack_animation_tick: i32,
    pub offer_flower_tick: i32,
}

impl IronGolemEntity {
    pub fn new(entity: Entity) -> (r: IronGolemEntity)
        ensures
            r.entity == entity,
            !r.player_created,
            r.attack_animation_tick == 0,
            r.offer_flower_tick == 0,
    {
        IronGolemEntity { entity, player_created: false, attack_animation_tick: 0, offer_flower_tick: 0 }
    }

    pub fn is_player_created(&self) -> (r: bool)
        ensures
            r == self.player_created,
    {
        self.player_created
    }

    pub fn set_player_created(&mut self, value: bool)
        ensures
            final(self).player_created == value,
            final(self).offer_flower_tick == old(self).offer_flower_tick,
            final(self).attack_animation_tick == old(self).attack_animation_tick,
    {
        self.player_created = value;
    }

    /// Holds out a flower for 400 ticks, or takes it back.  Answers the
    /// status to send to the players who see the golem.
    pub fn offer_flower(&mut self, offer: bool) -> (r: FlowerStatus)
        ensures
            final(self).offer_flower_tick == if offer {
                OFFER_FLOWER_TICKS
            } else {
                0
            },
            final(self).player_created == old(self).player_created,
            r == if offer {
                FlowerStatus::OfferFlower
            } else {
                FlowerStatus::StopOfferFlower
            },
    {
        if offer {
            self.offer_flower_tick = OFFER_FLOWER_TICKS;
            FlowerStatus::OfferFlower
        } else {
            self.offer_flower_tick = 0;
            FlowerStatus::StopOfferFlower
        }
    }

    pub fn get_offer_flower_tick(&self) -> (r: i32)
        ensures
            r == self.offer_flower_tick,
    {
        self.offer_flower_tick
    }

    /// Both animation counters run down to zero, one per tick.
    pub fn mob_tick(&mut self)
        ensures
            final(self).attack_animation_tick == if old(self).attack_animation_tick > 0 {
                old(self).attack_animation_tick - 1
            } else {
                old(self).attack_animation_tick as int
            },
            final(self).offer_flower_tick == if old(self).offer_flower_tick > 0 {
                old(self).offer_flower_tick - 1
            } else {
                old(self).offer_flower_tick as int
            },
            final(self).player_created == old(self).player_created,
    {
        if self.attack_animation_tick > 0 {
            self.attack_animation_tick = self.attack_animation_tick - 1;
        }
        if self.offer_flower_tick > 0 {
            self.offer_flower_tick = self.offer_flower_tick - 1;
        }
    }

    /// A hit starts the attack animation.
    pub fn on_attack(&mut self)
        ensures
            final(self).attack_animation_tick == ATTACK_ANIMATION_TICKS,
            final(self).offer_flower_tick == old(self).offer_flower_tick,
            final(self).player_created == old(self).player_created,
    {
        self.attack_animation_tick = ATTACK_ANIMATION_TICKS;
    }
}

/// A player near the golem and the reputation a villager near the golem
/// gives him.
#[derive(Clone, Copy, Debug, PartialEq, Eq, Structural)]
pub struct PlayerNearby {
    pub player_id: i32,
    /// The player is in creative or spectator mode.
    pub exempt: bool,
    /// The player is within 64 blocks of the golem.
    pub in_combat_range: bool,
    pub reputation: i32,
}

/// Whether a golem defending its village turns on this player.
pub open spec fn spec_is_village_enemy(p: PlayerNearby) -> bool {
    !p.exempt && p.in_combat_range && p.reputation <= HOSTILE_REPUTATION
}

/// The first player in `players` from index `k` the golem turns on.
pub open spec fn spec_first_enemy(players: Seq<PlayerNearby>, k: int) -> Option<i32>
    decreases players.len() - k,
{
    if k < 0 || k >= players.len() {
        None
    } else if spec_is_village_enemy(players[k]) {
        Some(players[k].player_id)
    } else {
        spec_first_enemy(players, k + 1)
    }
}

/// An iron golem's goal of attacking players its village hates.
pub struct DefendVillageTargetGoal {
    pub target: Option<i32>,
    pub reciprocal_chance: i32,
}

/// The target the defending golem picks when it looks: none for a golem a
/// player built, else the first enemy among the villagers' neighbours.
pub open spec fn spec_defend_target(golem: IronGolemEntity, villagers: Seq<Vec<PlayerNearby>>) -> Option<i32> {
    if golem.player_created {
        None
    } else {
        first_enemy_among(villagers.map_values(|v: Vec<PlayerNearby>| v@), 0)
    }
}

impl Default for DefendVillageTargetGoal {
    /// The same goal as `new`: no target, a chance of 5.
    fn default() -> (r: DefendVillageTargetGoal)
        ensures
            r.target is None,
            r.reciprocal_chance == 5,
    {
        DefendVillageTargetGoal::new()
    }
}

impl DefendVillageTargetGoal {
    pub fn new() -> (r: DefendVillageTargetGoal)
        ensures
            r.target is None,
            r.reciprocal_chance == 5,
    {
        DefendVillageTargetGoal { target: None, reciprocal_chance: to_goal_ticks(10) }
    }

    /// The target the golem picks.  A golem made by a player never turns on
    /// players.  Otherwise, for the first villager within the village radius,
    /// the first player it lists that is hostile is picked; `villagers` holds,
    /// for each villager near the golem in turn, the players as it sees them.
    pub fn find_target(&self, golem: &IronGolemEntity, villagers: &Vec<Vec<PlayerNearby>>) -> (r:
        Option<i32>)
        ensures
            golem.player_created ==> r is None,
            !golem.player_created ==> r == first_enemy_among(villagers@.map_values(
                |v: Vec<PlayerNearby>| v@,
            ), 0),
    {
        if golem.is_player_created() {
            return None;
        }
        let ghost views = villagers@.map_values(|v: Vec<PlayerNearby>| v@);
        let mut i: usize = 0;
        while i < villagers.len()
            invariant
                i <= villagers@.len(),
                !golem.player_created,
                views == villagers@.map_values(|v: Vec<PlayerNearby>| v@),
                first_enemy_among(views, 0) == first_enemy_among(views, i as int),
            decreases villagers@.len() - i,
        {
            let players = &villagers[i];
            let mut j: usize = 0;
            while j < players.len()
                invariant
                    j <= players@.len(),
                    i < villagers@.len(),
                    !golem.player_created,
                    views == villagers@.map_values(|v: Vec<PlayerNearby>| v@),
                    first_enemy_among(views, 0) == first_enemy_among(views, i as int),
                    players@ == views[i as int],
                    spec_first_enemy(players@, 0) == spec_first_enemy(players@, j as int),
                decreases players@.len() - j,
            {
                let p = players[j];
                if !p.exempt && p.in_combat_range && p.reputation <= HOSTILE_REPUTATION {
                    return Some(p.player_id);
                }
                j += 1;
            }
            i += 1;
        }
        None
    }

    /// Whether the goal starts, given a roll in `0..reciprocal_chance`: only a
    /// roll of 0 lets it look for a target.
    pub fn can_start_with_roll(
        &mut self,
        golem: &IronGolemEntity,
        villagers: &Vec<Vec<PlayerNearby>>,
        roll: i32,
    ) -> (r: bool)
        ensures
            old(self).reciprocal_chance > 0 && roll != 0 ==> !r && final(self).target == old(self).target,
            !(old(self).reciprocal_chance > 0 && roll != 0) ==> {
                &&& final(self).target == if golem.player_created {
                    None
                } else {
                    first_enemy_among(villagers@.map_values(|v: Vec<PlayerNearby>| v@), 0)
                }
                &&& r == final(self).target is Some
            },
            final(self).reciprocal_chance == old(self).reciprocal_chance,
    {
        if self.reciprocal_chance > 0 && roll != 0 {
            return false;
        }
        self.target = self.find_target(golem, villagers);
        self.target.is_some()
    }

    /// Whether the goal starts; the goal looks for a target one time in
    /// `reciprocal_chance` (always with a chance of one or none set); when the
    /// roll misses it keeps its target and does not start.
    pub fn can_start(&mut self, golem: &IronGolemEntity, villagers: &Vec<Vec<PlayerNearby>>) -> (r:
        bool)
        ensures
            old(self).reciprocal_chance <= 1 ==> final(self).target == spec_defend_target(
                *golem,
                villagers@,
            ) && r == final(self).target is Some,
            old(self).reciprocal_chance > 1 ==> (final(self).target == spec_defend_target(
                *golem,
                villagers@,
            ) && r == final(self).target is Some) || (!r && final(self).target
                == old(self).target),
            final(self).reciprocal_chance == old(self).reciprocal_chance,
    {
        let roll = if self.reciprocal_chance > 0 {
            random_range_i32(0, self.reciprocal_chance)
        } else {
            0
        };
        self.can_start_with_roll(golem, villagers, roll)
    }

    /// Stopping forgets the target.
    pub fn stop(&mut self)
        ensures
            final(self).target is None,
            final(self).reciprocal_chance == old(self).reciprocal_chance,
    {
        self.target = None;
    }
}

/// The first hostile player seen by the villagers from index `k` on.
pub open spec fn first_enemy_among(villagers: Seq<Seq<PlayerNearby>>, k: int) -> Option<i32>
    decreases villagers.len() - k,
{
    if k < 0 || k >= villagers.len() {
        None
    } else {
        match spec_first_enemy(villagers[k], 0) {
            Some(id) => Some(id),
            None => first_enemy_among(villagers, k + 1),
        }
    }
}

} // verus!
