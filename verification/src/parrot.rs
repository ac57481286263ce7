use vstd::prelude::*;

use crate::entity::Entity;
use crate::item::Item;
use crate::rng::random_range_i32;
use crate::text::{str_equal, strip_namespace, strip_namespace_spec};

verus! {

/// Ticks of poison a parrot gets from eating a cookie.
pub const COOKIE_POISON_DURATION: i32 = 900;

/// The ambient sound timer restarts at this value.
pub const AMBIENT_SOUND_RESET: i32 = -80;

/// The five colours of a parrot.
#[derive(Clone, Copy, Debug, PartialEq, Eq, Structural)]
pub enum ParrotVariant {
    RedBlue,
    Blue,
    Green,
    YellowBlue,
    Gray,
}

pub open spec fn spec_variant_id(v: ParrotVariant) -> i32 {
    match v {
        ParrotVariant::RedBlue => 0,
        ParrotVariant::Blue => 1,
        ParrotVariant::Green => 2,
        ParrotVariant::YellowBlue => 3,
        ParrotVariant::Gray => 4,
    }
}

pub open spec fn spec_variant_from_id(id: i32) -> ParrotVariant {
    if id == 1 {
        ParrotVariant::Blue
    } else if id == 2 {
        ParrotVariant::Green
    } else if id == 3 {
        ParrotVariant::YellowBlue
    } else if id == 4 {
        ParrotVariant::Gray
    } else {
        ParrotVariant::RedBlue
    }
}

pub open spec fn spec_variant_from_name(name: Seq<char>) -> ParrotVariant {
    let n = strip_namespace_spec(name);
    if n == "blue"@ {
        ParrotVariant::Blue
    } else if n == "green"@ {
        ParrotVariant::Green
    } else if n == "yellow_blue"@ || n == "yellow"@ {
        ParrotVariant::YellowBlue
    } else if n == "gray"@ {
        ParrotVariant::Gray
    } else {
        ParrotVariant::RedBlue
    }
}

impl ParrotVariant {
    /// The variant with the given id; unknown ids give red-blue.
    pub fn from_id(id: i32) -> (r: ParrotVariant)
        ensures
            r == spec_variant_from_id(id),
    {
        match id {
            1 => ParrotVariant::Blue,
            2 => ParrotVariant::Green,
            3 => ParrotVariant::YellowBlue,
            4 => ParrotVariant::Gray,
            _ => ParrotVariant::RedBlue,
        }
    }

    pub fn id(self) -> (r: i32)
        ensures
            r == spec_variant_id(self),
    {
        match self {
            ParrotVariant::RedBlue => 0,
            ParrotVariant::Blue => 1,
            ParrotVariant::Green => 2,
            ParrotVariant::YellowBlue => 3,
            ParrotVariant::Gray => 4,
        }
    }

    /// The variant named `name`, with or without the `minecraft:` namespace;
    /// unknown names give red-blue.
    pub fn from_name(name: &str) -> (r: ParrotVariant)
        ensures
            r == spec_variant_from_name(name@),
    {
        let n = strip_namespace(name);
        if str_equal(n, "blue") {
            ParrotVariant::Blue
        } else if str_equal(n, "green") {
            ParrotVariant::Green
        } else if str_equal(n, "yellow_blue") || str_equal(n, "yellow") {
            ParrotVariant::YellowBlue
        } else if str_equal(n, "gray") {
            ParrotVariant::Gray
        } else {
            ParrotVariant::RedBlue
        }
    }

    /// A variant drawn at random.
    pub fn random_variant() -> (r: ParrotVariant)
        ensures
            0 <= spec_variant_id(r) < 5,
    {
        ParrotVariant::from_id(random_range_i32(0, 5))
    }
}

/// Every variant's id names it again.
pub proof fn law_variant_id_round_trip(v: ParrotVariant)
    ensures
        spec_variant_from_id(spec_variant_id(v)) == v,
{
}

/// Cookies poison parrots.
pub fn is_poisonous_parrot_food(item: Item) -> (r: bool)
    ensures
        r == (item == Item::Cookie),
{
    item == Item::Cookie
}

pub open spec fn spec_is_parrot_seed(item: Item) -> bool {
    item == Item::WheatSeeds || item == Item::MelonSeeds || item == Item::PumpkinSeeds || item
        == Item::BeetrootSeeds || item == Item::TorchflowerSeeds || item == Item::PitcherPod
}

/// The seeds that tame a parrot.
pub fn is_parrot_seed(item: Item) -> (r: bool)
    ensures
        r == spec_is_parrot_seed(item),
{
    item == Item::WheatSeeds || item == Item::MelonSeeds || item == Item::PumpkinSeeds || item
        == Item::BeetrootSeeds || item == Item::TorchflowerSeeds || item == Item::PitcherPod
}

/// What a player's interaction with a parrot does.
#[derive(Clone, Copy, Debug, PartialEq, Eq, Structural)]
pub enum ParrotInteraction {
    /// The parrot eats the cookie: it is poisoned for 900 ticks and killed.
    Poisoned,
    /// The seed tamed the parrot; it now belongs to the player and sits.
    Tamed,
    /// The parrot ate the seed but stays wild.
    TameFailed,
    /// The owner toggled whether the parrot sits.
    ToggledSitting,
    /// Nothing happens.
    Pass,
}

pub struct ParrotEntity {
    pub entity: Entity,
    pub variant: i32,
    pub sitting: bool,
    pub owner: Option<u128>,
    pub ambient_sound_time: i32,
}

impl ParrotEntity {
    pub fn new(entity: Entity) -> (r: ParrotEntity)
        ensures
            r.entity == entity,
            0 <= r.variant < 5,
            !r.sitting,
            r.owner is None,
            r.ambient_sound_time == AMBIENT_SOUND_RESET,
    {
        let variant = ParrotVariant::random_variant();
        ParrotEntity {
            entity,
            variant: variant.id(),
            sitting: false,
            owner: None,
            ambient_sound_time: AMBIENT_SOUND_RESET,
        }
    }

    pub fn get_variant(&self) -> (r: ParrotVariant)
        ensures
            r == spec_variant_from_id(self.variant),
    {
        ParrotVariant::from_id(self.variant)
    }

    pub fn set_variant(&mut self, variant: ParrotVariant)
        ensures
            final(self).variant == spec_variant_id(variant),
            final(self).sitting == old(self).sitting,
            final(self).owner == old(self).owner,
    {
        self.variant = variant.id();
    }

    pub fn is_sitting(&self) -> (r: bool)
        ensures
            r == self.sitting,
    {
        self.sitting
    }

    pub fn set_sitting(&mut self, sitting: bool)
        ensures
            final(self).sitting == sitting,
            final(self).variant == old(self).variant,
            final(self).owner == old(self).owner,
    {
        self.sitting = sitting;
    }

    pub fn is_tamed(&self) -> (r: bool)
        ensures
            r == self.owner is Some,
    {
        self.owner.is_some()
    }

    /// The interaction of `player` holding `item`, where `tame_roll` is the
    /// roll of the taming die (0, 1 or 2; 0 tames).
    pub fn interact_with_roll(&mut self, item: Item, player: u128, tame_roll: i32) -> (r:
        ParrotInteraction)
        ensures
            final(self).variant == old(self).variant,
            r == if item == Item::Cookie {
                ParrotInteraction::Poisoned
            } else if spec_is_parrot_seed(item) && old(self).owner is None {
                if tame_roll == 0 {
                    ParrotInteraction::Tamed
                } else {
                    ParrotInteraction::TameFailed
                }
            } else if old(self).owner == Some(player) {
                ParrotInteraction::ToggledSitting
            } else {
                ParrotInteraction::Pass
            },
            r == ParrotInteraction::Tamed ==> final(self).owner == Some(player) && final(self).sitting,
            r == ParrotInteraction::ToggledSitting ==> final(self).owner == old(self).owner
                && final(self).sitting == !old(self).sitting,
            r != ParrotInteraction::Tamed && r != ParrotInteraction::ToggledSitting ==> final(self).owner == old(self).owner && final(self).sitting == old(self).sitting,
    {
        if is_poisonous_parrot_food(item) {
            return ParrotInteraction::Poisoned;
        }
        if is_parrot_seed(item) && !self.is_tamed() {
            if tame_roll == 0 {
                self.owner = Some(player);
                self.set_sitting(true);
                return ParrotInteraction::Tamed;
            }
            return ParrotInteraction::TameFailed;
        }
        if self.is_tamed() && self.owner == Some(player) {
            let next_sitting = !self.is_sitting();
            self.set_sitting(next_sitting);
            return ParrotInteraction::ToggledSitting;
        }
        ParrotInteraction::Pass
    }

    /// The interaction of `player` holding `item`; a seed tames a wild parrot
    /// one time in three.
    pub fn mob_interact(&mut self, item: Item, player: u128) -> (r: ParrotInteraction)
        ensures
            final(self).variant == old(self).variant,
            item == Item::Cookie ==> r == ParrotInteraction::Poisoned,
            item != Item::Cookie && spec_is_parrot_seed(item) && old(self).owner is None ==> (r
                == ParrotInteraction::Tamed || r == ParrotInteraction::TameFailed),
            item != Item::Cookie && !(spec_is_parrot_seed(item) && old(self).owner is None)
                && old(self).owner == Some(player) ==> r == ParrotInteraction::ToggledSitting,
            item != Item::Cookie && !(spec_is_parrot_seed(item) && old(self).owner is None)
                && old(self).owner != Some(player) ==> r == ParrotInteraction::Pass,
            r == ParrotInteraction::Tamed ==> final(self).owner == Some(player) && final(self).sitting,
    {
        let roll = if item != Item::Cookie && is_parrot_seed(item) && !self.is_tamed() {
            random_range_i32(0, 3)
        } else {
            1
        };
        self.interact_with_roll(item, player, roll)
    }

    /// Being hurt restarts the ambient sound timer.
    pub fn on_damage(&mut self)
        ensures
            final(self).ambient_sound_time == AMBIENT_SOUND_RESET,
            final(self).variant == old(self).variant,
    {
        self.ambient_sound_time = AMBIENT_SOUND_RESET;
    }

    /// The ambient sound timer for one tick, given a roll in 0..1000: the
    /// parrot calls (and the timer restarts) when the timer was positive and
    /// the roll is below it.
    pub fn ambient_tick_with_roll(&mut self, roll: i32) -> (r: bool)
        ensures
            r == (old(self).ambient_sound_time > 0 && roll < old(self).ambient_sound_time),
            r ==> final(self).ambient_sound_time == AMBIENT_SOUND_RESET,
            !r ==> final(self).ambient_sound_time == if old(self).ambient_sound_time < i32::MAX {
                old(self).ambient_sound_time + 1
            } else {
                i32::MIN as int
            },
    {
        let timer = self.ambient_sound_time;
        self.ambient_sound_time = timer.wrapping_add(1);
        if timer > 0 && roll < timer {
            self.ambient_sound_time = AMBIENT_SOUND_RESET;
            return true;
        }
        false
    }
}

} // verus!
