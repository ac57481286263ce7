use vstd::prelude::*;

use crate::entity::{Difficulty, Entity};

verus! {

/// Damage a wither skull deals on a hit.
pub const WITHER_SKULL_DAMAGE: i32 = 8;

/// Health the owner of a wither skull regains when the skull kills.
pub const WITHER_SKULL_HEAL: i32 = 5;

/// The thrown-projectile part of a projectile: the entity and who threw it.
pub struct ThrownItemEntity {
    pub entity: Entity,
    pub owner_id: Option<i32>,
    pub collides_with_projectiles: bool,
    pub has_hit: bool,
}

impl ThrownItemEntity {
    /// A projectile thrown by `shooter`.
    pub fn new(entity: Entity, shooter: &Entity) -> (r: ThrownItemEntity)
        ensures
            r.entity == entity,
            r.owner_id == Some(shooter.entity_id),
            !r.collides_with_projectiles,
            !r.has_hit,
    {
        ThrownItemEntity {
            entity,
            owner_id: Some(shooter.entity_id),
            collides_with_projectiles: false,
            has_hit: false,
        }
    }

    /// A projectile nobody threw.
    pub fn unowned(entity: Entity) -> (r: ThrownItemEntity)
        ensures
            r.entity == entity,
            r.owner_id is None,
            !r.collides_with_projectiles,
            !r.has_hit,
    {
        ThrownItemEntity { entity, owner_id: None, collides_with_projectiles: false, has_hit: false }
    }
}

pub struct SmallFireballEntity {
    pub thrown: ThrownItemEntity,
}

impl SmallFireballEntity {
    pub fn new(entity: Entity) -> (r: SmallFireballEntity)
        ensures
            r.thrown.entity == entity,
            r.thrown.owner_id is None,
            !r.thrown.has_hit,
            !r.thrown.collides_with_projectiles,
    {
        SmallFireballEntity { thrown: ThrownItemEntity::unowned(entity) }
    }

    pub fn new_shot(entity: Entity, shooter: &Entity) -> (r: SmallFireballEntity)
        ensures
            r.thrown.entity == entity,
            r.thrown.owner_id == Some(shooter.entity_id),
            !r.thrown.has_hit,
            !r.thrown.collides_with_projectiles,
    {
        SmallFireballEntity { thrown: ThrownItemEntity::new(entity, shooter) }
    }

    pub fn get_owner_id(&self) -> (r: Option<i32>)
        ensures
            r == self.thrown.owner_id,
    {
        self.thrown.owner_id
    }
}

/// Ticks of wither a skull's hit gives on each difficulty.
pub open spec fn spec_skull_wither_ticks(d: Difficulty) -> i32 {
    match d {
        Difficulty::Hard => 800,
        Difficulty::Normal => 200,
        Difficulty::Easy | Difficulty::Peaceful => 0,
    }
}

pub struct WitherSkullEntity {
    pub thrown: ThrownItemEntity,
    pub dangerous: bool,
}

impl WitherSkullEntity {
    pub fn new(entity: Entity) -> (r: WitherSkullEntity)
        ensures
            r.thrown.entity == entity,
            r.thrown.owner_id is None,
            !r.thrown.collides_with_projectiles,
            !r.thrown.has_hit,
            !r.dangerous,
    {
        WitherSkullEntity { thrown: ThrownItemEntity::unowned(entity), dangerous: false }
    }

    /// A skull shot by `shooter`, dangerous (blue) or not.  Its flight speed
    /// and facing come from the aim, which is worked out in floating point
    /// outside this library.
    pub fn new_shot(entity: Entity, shooter: &Entity, dangerous: bool) -> (r: WitherSkullEntity)
        ensures
            r.thrown.entity == entity,
            r.thrown.owner_id == Some(shooter.entity_id),
            !r.thrown.collides_with_projectiles,
            !r.thrown.has_hit,
            r.dangerous == dangerous,
    {
        WitherSkullEntity { thrown: ThrownItemEntity::new(entity, shooter), dangerous }
    }

    pub fn is_dangerous(&self) -> (r: bool)
        ensures
            r == self.dangerous,
    {
        self.dangerous
    }

    pub fn set_dangerous(&mut self, dangerous: bool)
        ensures
            final(self).dangerous == dangerous,
            final(self).thrown.owner_id == old(self).thrown.owner_id,
    {
        self.dangerous = dangerous;
    }

    pub fn get_owner_id(&self) -> (r: Option<i32>)
        ensures
            r == self.thrown.owner_id,
    {
        self.thrown.owner_id
    }

    /// How long the wither effect lasts that a hit gives, 0 for none.
    pub fn hit_wither_ticks(difficulty: Difficulty) -> (r: i32)
        ensures
            r == spec_skull_wither_ticks(difficulty),
    {
        match difficulty {
            Difficulty::Hard => 800,
            Difficulty::Normal => 200,
            _ => 0,
        }
    }
}

} // verus!
