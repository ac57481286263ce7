use vstd::prelude::*;

use crate::entity::Entity;

verus! {

/// Ticks of the wither effect a wither skeleton's hit gives.
pub const WITHER_SKELETON_EFFECT_TICKS: i32 = 200;

/// Red and brown mushrooms dropped, each, when a bogged is sheared.
pub const BOGGED_MUSHROOM_DROP: i32 = 2;

/// What shearing a bogged does.
#[derive(Clone, Copy, Debug, PartialEq, Eq, Structural)]
pub enum ShearResult {
    /// The bogged loses its mushrooms: two red and two brown drop, and the
    /// shears take one point of damage.
    Sheared,
    /// Not shears, or already sheared: the ordinary interaction applies.
    Pass,
}

pub struct BoggedSkeletonEntity {
    pub entity: Entity,
    pub sheared: bool,
}

impl BoggedSkeletonEntity {
    pub fn new(entity: Entity) -> (r: BoggedSkeletonEntity)
        ensures
            r.entity == entity,
            !r.sheared,
    {
        BoggedSkeletonEntity { entity, sheared: false }
    }

    pub fn is_sheared(&self) -> (r: bool)
        ensures
            r == self.sheared,
    {
        self.sheared
    }

    pub fn set_sheared(&mut self, sheared: bool)
        ensures
            final(self).sheared == sheared,
            final(self).entity == old(self).entity,
    {
        self.sheared = sheared;
    }

    /// A player uses an item on the bogged: shears take its mushrooms once.
    pub fn mob_interact(&mut self, holding_shears: bool) -> (r: ShearResult)
        ensures
            r == if holding_shears && !old(self).sheared {
                ShearResult::Sheared
            } else {
                ShearResult::Pass
            },
            final(self).sheared == (old(self).sheared || holding_shears),
            final(self).entity == old(self).entity,
    {
        if holding_shears && !self.is_sheared() {
            self.set_sheared(true);
            return ShearResult::Sheared;
        }
        ShearResult::Pass
    }
}

pub struct StraySkeletonEntity {
    pub entity: Entity,
}

impl StraySkeletonEntity {
    pub fn new(entity: Entity) -> (r: StraySkeletonEntity)
        ensures
            r.entity == entity,
    {
        StraySkeletonEntity { entity }
    }
}

pub struct WitherSkeletonEntity {
    pub entity: Entity,
}

impl WitherSkeletonEntity {
    pub fn new(entity: Entity) -> (r: WitherSkeletonEntity)
        ensures
            r.entity == entity,
    {
        WitherSkeletonEntity { entity }
    }

    /// A wither skeleton takes no damage from the wither effect; all other
    /// damage goes through.
    pub fn ignores_damage(is_wither: bool) -> (r: bool)
        ensures
            r == is_wither,
    {
        is_wither
    }

    /// The ticks of wither a hit gives its target.
    pub fn attack_wither_ticks(&self) -> (r: i32)
        ensures
            r == WITHER_SKELETON_EFFECT_TICKS,
    {
        WITHER_SKELETON_EFFECT_TICKS
    }
}

} // verus!
