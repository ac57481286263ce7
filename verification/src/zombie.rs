use vstd::prelude::*;

use crate::entity::{Difficulty, Entity};

verus! {

/// The age a baby zombie is given.
pub const BABY_AGE: i32 = -24000;

/// Ticks a husk must spend in water before it turns into a zombie.
pub const HUSK_CONVERSION_TICKS: i32 = 600;

/// The state shared by every kind of zombie.
pub struct ZombieEntityBase {
    pub entity: Entity,
    pub can_break_doors: bool,
}

impl ZombieEntityBase {
    pub fn new(entity: Entity) -> (r: ZombieEntityBase)
        ensures
            r.entity == entity,
            !r.can_break_doors,
    {
        ZombieEntityBase { entity, can_break_doors: false }
    }

    pub fn with_can_break_doors(entity: Entity, can_break_doors: bool) -> (r: ZombieEntityBase)
        ensures
            r.entity == entity,
            r.can_break_doors == can_break_doors,
    {
        ZombieEntityBase { entity, can_break_doors }
    }
}

pub struct ZombieEntity {
    pub entity: ZombieEntityBase,
}

impl ZombieEntity {
    pub open spec fn spec_is_baby(&self) -> bool {
        self.entity.entity.age < 0
    }

    pub fn with_can_break_doors(entity: Entity, can_break_doors: bool) -> (r: ZombieEntity)
        ensures
            r.entity.entity == entity,
            r.entity.can_break_doors == can_break_doors,
    {
        ZombieEntity { entity: ZombieEntityBase::with_can_break_doors(entity, can_break_doors) }
    }

    /// A newly spawned zombie, given the two chances drawn for it: a baby when
    /// `baby_roll` came up (one time in twenty), and then, when `jockey_roll`
    /// came up as well, riding a chicken.  Answers the zombie and whether a
    /// chicken jockey is to be spawned for it; it cannot break doors.
    pub fn new_spawned(entity: Entity, baby_roll: bool, jockey_roll: bool) -> (r: (ZombieEntity, bool))
        ensures
            r.0.entity.entity.entity_id == entity.entity_id,
            r.0.entity.entity.age == if baby_roll {
                BABY_AGE
            } else {
                entity.age
            },
            !r.0.entity.can_break_doors,
            r.1 == (baby_roll && jockey_roll),
    {
        let mut zombie = ZombieEntity { entity: ZombieEntityBase::new(entity) };
        if baby_roll {
            zombie.set_baby(true);
            return (zombie, jockey_roll);
        }
        (zombie, false)
    }

    pub fn can_break_doors(&self) -> (r: bool)
        ensures
            r == self.entity.can_break_doors,
    {
        self.entity.can_break_doors
    }

    pub fn set_can_break_doors(&mut self, can_break: bool)
        ensures
            final(self).entity.can_break_doors == can_break,
            final(self).entity.entity == old(self).entity.entity,
    {
        self.entity.can_break_doors = can_break;
    }

    /// A zombie is a baby while its age is negative.
    pub fn is_baby(&self) -> (r: bool)
        ensures
            r == self.spec_is_baby(),
    {
        self.entity.entity.age < 0
    }

    /// Makes the zombie a baby (age -24000) or grown up (age 0).
    pub fn set_baby(&mut self, baby: bool)
        ensures
            final(self).entity.entity.age == if baby {
                BABY_AGE
            } else {
                0
            },
            final(self).spec_is_baby() == baby,
            final(self).entity.can_break_doors == old(self).entity.can_break_doors,
            final(self).entity.entity.entity_id == old(self).entity.entity.entity_id,
    {
        let age = if baby {
            BABY_AGE
        } else {
            0
        };
        self.entity.entity.age = age;
    }
}

/// What one tick in or out of water does to a husk.
#[derive(Clone, Copy, Debug, PartialEq, Eq, Structural)]
pub enum HuskTick {
    /// Nothing happens beyond the timer.
    Stay,
    /// The husk has been in water long enough and becomes a zombie.
    ConvertToZombie,
}

pub struct HuskEntity {
    pub entity: ZombieEntityBase,
    pub conversion_time: i32,
}

/// The ticks of hunger a husk's hit gives on each difficulty.
pub open spec fn spec_husk_hunger(d: Difficulty) -> i32 {
    match d {
        Difficulty::Normal => 280,
        Difficulty::Hard => 420,
        Difficulty::Easy => 140,
        Difficulty::Peaceful => 0,
    }
}

impl HuskEntity {
    pub fn new(entity: Entity) -> (r: HuskEntity)
        ensures
            r.entity.entity == entity,
            !r.entity.can_break_doors,
            r.conversion_time == 0,
    {
        HuskEntity { entity: ZombieEntityBase::new(entity), conversion_time: 0 }
    }

    pub fn with_can_break_doors(entity: Entity, can_break_doors: bool) -> (r: HuskEntity)
        ensures
            r.entity.entity == entity,
            r.entity.can_break_doors == can_break_doors,
            r.conversion_time == 0,
    {
        HuskEntity {
            entity: ZombieEntityBase::with_can_break_doors(entity, can_break_doors),
            conversion_time: 0,
        }
    }

    /// How long the hunger effect lasts that a husk's hit gives, 0 for none.
    pub fn attack_hunger_ticks(difficulty: Difficulty) -> (r: i32)
        ensures
            r == spec_husk_hunger(difficulty),
    {
        match difficulty {
            Difficulty::Normal => 140 * 2,
            Difficulty::Hard => 140 * 3,
            Difficulty::Easy => 140,
            _ => 0,
        }
    }

    /// Counts the ticks spent in water; leaving the water resets the count.
    pub fn mob_tick(&mut self, touching_water: bool) -> (r: HuskTick)
        ensures
            touching_water ==> final(self).conversion_time == if old(self).conversion_time
                < i32::MAX {
                old(self).conversion_time + 1
            } else {
                i32::MIN as int
            },
            !touching_water ==> final(self).conversion_time == 0,
            r == if touching_water && old(self).conversion_time + 1 >= HUSK_CONVERSION_TICKS
                && old(self).conversion_time < i32::MAX {
                HuskTick::ConvertToZombie
            } else {
                HuskTick::Stay
            },
    {
        if touching_water {
            let ticks = self.conversion_time.wrapping_add(1);
            self.conversion_time = ticks;
            if ticks >= HUSK_CONVERSION_TICKS {
                return HuskTick::ConvertToZombie;
            }
            HuskTick::Stay
        } else {
            self.conversion_time = 0;
            HuskTick::Stay
        }
    }
}

pub struct DrownedEntity {
    pub entity: ZombieEntityBase,
}

impl DrownedEntity {
    pub fn new(entity: Entity) -> (r: DrownedEntity)
        ensures
            r.entity.entity == entity,
            !r.entity.can_break_doors,
    {
        DrownedEntity { entity: ZombieEntityBase::new(entity) }
    }

    pub fn with_can_break_doors(entity: Entity, can_break_doors: bool) -> (r: DrownedEntity)
        ensures
            r.entity.entity == entity,
            r.entity.can_break_doors == can_break_doors,
    {
        DrownedEntity { entity: ZombieEntityBase::with_can_break_doors(entity, can_break_doors) }
    }
}

} // verus!
