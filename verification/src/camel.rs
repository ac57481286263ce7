use vstd::prelude::*;

use crate::entity::Entity;
use crate::item::Item;

verus! {

pub const FLAG_TAME: u8 = 2;
pub const FLAG_SADDLE: u8 = 4;
pub const FLAG_BRED: u8 = 8;
pub const FLAG_EATING: u8 = 16;
pub const FLAG_STANDING: u8 = 32;

/// The flags `flags` with `flag` switched on (`val`) or off.
pub open spec fn spec_with_flag(flags: u8, flag: u8, val: bool) -> u8 {
    if val {
        flags | flag
    } else {
        flags & !flag
    }
}

/// The parts of a camel that its rules read and write; `saddle_slot` says
/// whether its saddle slot holds a saddle.
#[derive(Clone, Copy, Debug, PartialEq, Eq, Structural)]
pub struct CamelEntity {
    pub entity: Entity,
    pub flags: u8,
    pub dashing: bool,
    pub saddle_slot: bool,
}

/// What a player's use of an item on a camel did.
#[derive(Clone, Copy, Debug, PartialEq, Eq, Structural)]
pub enum CamelInteraction {
    /// A sneaking player opens the camel's inventory.
    OpenInventory,
    /// The camel got a saddle (one used unless creative).
    Saddle,
    /// The item is camel food: the animal logic decides.
    Feed,
    /// The player mounts (a grown camel carries two riders).
    Mount,
    Pass,
}

/// Camels eat cactus and their food tag.
pub open spec fn spec_camel_food(item: Item, food_tag: bool) -> bool {
    food_tag || item == Item::Cactus
}

impl CamelEntity {
    /// A new camel: no flags, not dashing, no saddle.
    pub fn new(entity: Entity) -> (r: CamelEntity)
        ensures
            r == (CamelEntity { entity, flags: 0, dashing: false, saddle_slot: false }),
    {
        CamelEntity { entity, flags: 0, dashing: false, saddle_slot: false }
    }

    /// Passive mobs never despawn when far from players.
    pub fn remove_when_far_away(&self) -> (r: bool)
        ensures
            !r,
    {
        false
    }

    pub fn has_flag(&self, flag: u8) -> (r: bool)
        ensures
            r == (self.flags & flag != 0),
    {
        self.flags & flag != 0
    }

    /// Switches `flag` on or off; answers the flags sent to clients.
    pub fn set_flag(&mut self, flag: u8, val: bool) -> (r: u8)
        ensures
            final(self).flags == spec_with_flag(old(self).flags, flag, val),
            r == final(self).flags,
            final(self).entity == old(self).entity,
            final(self).dashing == old(self).dashing,
            final(self).saddle_slot == old(self).saddle_slot,
    {
        let new_flags = if val {
            self.flags | flag
        } else {
            self.flags & !flag
        };
        self.flags = new_flags;
        new_flags
    }

    pub fn is_baby(&self) -> (r: bool)
        ensures
            r == (self.entity.age < 0),
    {
        self.entity.age < 0
    }

    /// A camel is saddled when its flag says so or its saddle slot is full.
    pub fn is_saddled(&self) -> (r: bool)
        ensures
            r == (self.flags & FLAG_SADDLE != 0 || self.saddle_slot),
    {
        self.has_flag(FLAG_SADDLE) || self.saddle_slot
    }

    /// Puts a saddle into the slot (when empty) or takes it out, and sets the
    /// flag to match.
    pub fn set_saddled(&mut self, val: bool)
        ensures
            final(self).saddle_slot == val,
            final(self).flags == spec_with_flag(old(self).flags, FLAG_SADDLE, val),
            final(self).entity == old(self).entity,
            final(self).dashing == old(self).dashing,
    {
        self.saddle_slot = val;
        self.set_flag(FLAG_SADDLE, val);
    }

    pub fn is_dashing(&self) -> (r: bool)
        ensures
            r == self.dashing,
    {
        self.dashing
    }

    pub fn set_dashing(&mut self, dashing: bool)
        ensures
            *final(self) == (CamelEntity { dashing, ..*old(self) }),
    {
        self.dashing = dashing;
    }

    /// Camels eat cactus and their food tag.
    pub fn is_food(item: Item, food_tag: bool) -> (r: bool)
        ensures
            r == spec_camel_food(item, food_tag),
    {
        food_tag || item == Item::Cactus
    }

    /// The saddle flag follows the saddle slot each tick.
    pub fn mob_tick(&mut self)
        ensures
            final(self).flags == if old(self).saddle_slot != (old(self).flags & FLAG_SADDLE != 0) {
                spec_with_flag(old(self).flags, FLAG_SADDLE, old(self).saddle_slot)
            } else {
                old(self).flags
            },
            final(self).saddle_slot == old(self).saddle_slot,
            final(self).entity == old(self).entity,
            final(self).dashing == old(self).dashing,
    {
        let has_saddle = self.saddle_slot;
        if has_saddle != self.has_flag(FLAG_SADDLE) {
            self.set_flag(FLAG_SADDLE, has_saddle);
        }
    }

    /// A player's use of `item`: a sneaking player opens a grown camel's
    /// inventory; a saddle goes on a grown unsaddled camel; food goes to the
    /// animal logic; else a grown camel with fewer than two riders is mounted.
    pub fn mob_interact(&mut self, item: Item, sneaking: bool, food_tag: bool, passengers: usize) -> (r:
        CamelInteraction)
        ensures
            r == if sneaking && old(self).entity.age >= 0 {
                CamelInteraction::OpenInventory
            } else if item == Item::Saddle && !(old(self).flags & FLAG_SADDLE != 0
                || old(self).saddle_slot) && old(self).entity.age >= 0 {
                CamelInteraction::Saddle
            } else if spec_camel_food(item, food_tag) {
                CamelInteraction::Feed
            } else if passengers < 2 && old(self).entity.age >= 0 {
                CamelInteraction::Mount
            } else {
                CamelInteraction::Pass
            },
            r == CamelInteraction::Saddle ==> final(self).saddle_slot && final(self).flags
                == spec_with_flag(old(self).flags, FLAG_SADDLE, true),
            r != CamelInteraction::Saddle ==> *final(self) == *old(self),
    {
        if sneaking && !self.is_baby() {
            return CamelInteraction::OpenInventory;
        }
        if item == Item::Saddle && !self.is_saddled() && !self.is_baby() {
            self.set_saddled(true);
            return CamelInteraction::Saddle;
        }
        if Self::is_food(item, food_tag) {
            return CamelInteraction::Feed;
        }
        if passengers < 2 && !self.is_baby() {
            return CamelInteraction::Mount;
        }
        CamelInteraction::Pass
    }

    /// A dead saddled camel drops its saddle (answer `true`) and is unsaddled.
    pub fn on_damage(&mut self, dead: bool) -> (r: bool)
        ensures
            r == (dead && (old(self).flags & FLAG_SADDLE != 0 || old(self).saddle_slot)),
            r ==> !final(self).saddle_slot && final(self).flags == spec_with_flag(
                old(self).flags,
                FLAG_SADDLE,
                false,
            ),
            !r ==> *final(self) == *old(self),
    {
        if dead && self.is_saddled() {
            self.set_saddled(false);
            true
        } else {
            false
        }
    }
}

/// Setting a flag makes it read back as set, and leaves every other flag as
/// it was.
pub proof fn law_flag_set_get(flags: u8, flag: u8, other: u8, val: bool)
    requires
        flag != 0,
        flag & (flag - 1) as u8 == 0,
        other & flag == 0,
    ensures
        (spec_with_flag(flags, flag, val) & flag != 0) == val,
        spec_with_flag(flags, flag, val) & other == flags & other,
{
    if val {
        assert((flags | flag) & flag != 0) by (bit_vector)
            requires
                flag != 0,
        ;
        assert((flags | flag) & other == flags & other) by (bit_vector)
            requires
                other & flag == 0,
        ;
    } else {
        assert((flags & !flag) & flag == 0) by (bit_vector);
        assert((flags & !flag) & other == flags & other) by (bit_vector)
            requires
                other & flag == 0,
        ;
    }
}

} // verus!
