use vstd::prelude::*;

use crate::entity::Entity;
use crate::item::Item;
use crate::rng::random_range_i32;
use crate::text::{str_equal, strip_namespace, strip_namespace_spec};

verus! {

/// The climate variants of cows and pigs, saved by name.
#[derive(Clone, Copy, Debug, PartialEq, Eq, Structural)]
pub enum AnimalVariant {
    Cold,
    Temperate,
    Warm,
}

pub open spec fn spec_animal_variant_from_id(id: u8) -> AnimalVariant {
    if id == 0 {
        AnimalVariant::Cold
    } else if id == 2 {
        AnimalVariant::Warm
    } else {
        AnimalVariant::Temperate
    }
}

pub open spec fn spec_animal_variant_id(v: AnimalVariant) -> u8 {
    match v {
        AnimalVariant::Cold => 0,
        AnimalVariant::Temperate => 1,
        AnimalVariant::Warm => 2,
    }
}

/// A saved name, with or without its namespace: `cold` and `warm` name
/// themselves, anything else is temperate.
pub open spec fn spec_animal_variant_from_name(name: Seq<char>) -> AnimalVariant {
    let n = strip_namespace_spec(name);
    if n == "cold"@ {
        AnimalVariant::Cold
    } else if n == "warm"@ {
        AnimalVariant::Warm
    } else {
        AnimalVariant::Temperate
    }
}

pub open spec fn spec_animal_variant_name(v: AnimalVariant) -> Seq<char> {
    match v {
        AnimalVariant::Cold => "minecraft:cold"@,
        AnimalVariant::Temperate => "minecraft:temperate"@,
        AnimalVariant::Warm => "minecraft:warm"@,
    }
}

impl AnimalVariant {
    /// The variant with the given id; ids other than 0 and 2 are temperate.
    pub fn from_id(id: u8) -> (r: AnimalVariant)
        ensures
            r == spec_animal_variant_from_id(id),
    {
        if id == 0 {
            AnimalVariant::Cold
        } else if id == 2 {
            AnimalVariant::Warm
        } else {
            AnimalVariant::Temperate
        }
    }

    pub fn id(self) -> (r: u8)
        ensures
            r == spec_animal_variant_id(self),
    {
        match self {
            AnimalVariant::Cold => 0,
            AnimalVariant::Temperate => 1,
            AnimalVariant::Warm => 2,
        }
    }

    pub fn from_name(name: &str) -> (r: AnimalVariant)
        ensures
            r == spec_animal_variant_from_name(name@),
    {
        let n = strip_namespace(name);
        if str_equal(n, "cold") {
            AnimalVariant::Cold
        } else if str_equal(n, "warm") {
            AnimalVariant::Warm
        } else {
            AnimalVariant::Temperate
        }
    }

    /// The name the variant is saved under.
    pub fn name(self) -> (r: &'static str)
        ensures
            r@ == spec_animal_variant_name(self),
    {
        match self {
            AnimalVariant::Cold => "minecraft:cold",
            AnimalVariant::Temperate => "minecraft:temperate",
            AnimalVariant::Warm => "minecraft:warm",
        }
    }

    /// A variant drawn at random among the three.
    pub fn random_variant() -> (r: AnimalVariant) {
        let id = random_range_i32(0, 3);
        AnimalVariant::from_id(id as u8)
    }
}

/// Every variant's name reads back as the variant.
pub proof fn law_variant_name_round_trip(v: AnimalVariant)
    ensures
        spec_animal_variant_from_name(spec_animal_variant_name(v)) == v,
{
    reveal_strlit("minecraft:cold");
    reveal_strlit("minecraft:temperate");
    reveal_strlit("minecraft:warm");
    reveal_strlit("cold");
    reveal_strlit("warm");
    let s = spec_animal_variant_name(v);
    assert(s.subrange(0, 10) =~= crate::text::spec_namespace());
    let n = strip_namespace_spec(s);
    match v {
        AnimalVariant::Cold => {
            assert(n =~= "cold"@);
        },
        AnimalVariant::Temperate => {
            assert(n.len() != "cold"@.len());
            assert(n.len() != "warm"@.len());
        },
        AnimalVariant::Warm => {
            assert(n =~= "warm"@);
            assert(n[0] != "cold"@[0]);
        },
    }
}

/// Every variant's id reads back as the variant.
pub proof fn law_variant_id_round_trip(v: AnimalVariant)
    ensures
        spec_animal_variant_from_id(spec_animal_variant_id(v)) == v,
{
}

/// What using an item on a cow did.
#[derive(Clone, Copy, Debug, PartialEq, Eq, Structural)]
pub enum CowInteraction {
    /// A grown cow was milked into the bucket (one bucket used unless
    /// creative).
    Milk,
    /// The common animal logic (breeding, feeding) decides.
    Animal,
}

/// What using an item on a pig did.
#[derive(Clone, Copy, Debug, PartialEq, Eq, Structural)]
pub enum PigInteraction {
    /// The pig got a saddle (one saddle used unless creative).
    Saddle,
    /// The player mounts the saddled pig.
    Mount,
    /// The common animal logic decides.
    Animal,
}

pub struct CowEntity {
    pub entity: Entity,
    pub variant: AnimalVariant,
}

pub struct PigEntity {
    pub entity: Entity,
    pub variant: AnimalVariant,
    pub saddled: bool,
}

/// Cows eat wheat and their food tag.
pub open spec fn spec_cow_food(item: Item, food_tag: bool) -> bool {
    food_tag || item == Item::Wheat
}

/// Pigs eat carrots, potatoes, beetroots, carrots on a stick and their food
/// tag.
pub open spec fn spec_pig_food(item: Item, food_tag: bool) -> bool {
    food_tag || item == Item::Carrot || item == Item::Potato || item == Item::Beetroot || item
        == Item::CarrotOnAStick
}

/// Pigs eat the root crops (carrots, potatoes and beetroots) and a carrot on a
/// stick, besides anything with their food tag; nothing else.  So a saddled pig
/// offered one of them is fed rather than ridden.
pub proof fn law_pig_food(item: Item, food_tag: bool)
    ensures
        spec_pig_food(item, food_tag) <==> (food_tag || set![
            Item::Carrot,
            Item::Potato,
            Item::Beetroot,
            Item::CarrotOnAStick,
        ].contains(item)),
        spec_pig_food(Item::Carrot, false),
        spec_pig_food(Item::Potato, false),
        spec_pig_food(Item::Beetroot, false),
        spec_pig_food(Item::CarrotOnAStick, false),
        !spec_pig_food(Item::Wheat, false),
        !spec_pig_food(Item::Saddle, false),
{
}

impl CowEntity {
    /// A cow of a random variant.
    pub fn new(entity: Entity) -> (r: CowEntity)
        ensures
            r.entity == entity,
    {
        CowEntity { entity, variant: AnimalVariant::random_variant() }
    }

    /// Passive mobs never despawn when far from players.
    pub fn remove_when_far_away(&self) -> (r: bool)
        ensures
            !r,
    {
        false
    }

    pub fn is_baby(&self) -> (r: bool)
        ensures
            r == (self.entity.age < 0),
    {
        self.entity.age < 0
    }

    pub fn is_food(item: Item, food_tag: bool) -> (r: bool)
        ensures
            r == spec_cow_food(item, food_tag),
    {
        food_tag || item == Item::Wheat
    }

    /// A bucket milks a grown cow; anything else goes to the animal logic.
    pub fn mob_interact(&self, item: Item) -> (r: CowInteraction)
        ensures
            r == if item == Item::Bucket && self.entity.age >= 0 {
                CowInteraction::Milk
            } else {
                CowInteraction::Animal
            },
    {
        if item == Item::Bucket && !self.is_baby() {
            CowInteraction::Milk
        } else {
            CowInteraction::Animal
        }
    }

    /// Sets the variant from a saved or commanded name.
    pub fn set_variant_name(&mut self, name: &str)
        ensures
            final(self).variant == spec_animal_variant_from_name(name@),
            final(self).entity == old(self).entity,
    {
        self.variant = AnimalVariant::from_name(name);
    }
}

impl PigEntity {
    /// An unsaddled pig of a random variant.
    pub fn new(entity: Entity) -> (r: PigEntity)
        ensures
            r.entity == entity,
            !r.saddled,
    {
        PigEntity { entity, variant: AnimalVariant::random_variant(), saddled: false }
    }

    pub fn is_baby(&self) -> (r: bool)
        ensures
            r == (self.entity.age < 0),
    {
        self.entity.age < 0
    }

    pub fn is_food(item: Item, food_tag: bool) -> (r: bool)
        ensures
            r == spec_pig_food(item, food_tag),
    {
        food_tag || item == Item::Carrot || item == Item::Potato || item == Item::Beetroot || item
            == Item::CarrotOnAStick
    }

    pub fn is_saddled(&self) -> (r: bool)
        ensures
            r == self.saddled,
    {
        self.saddled
    }

    /// A living grown pig can be saddled.
    pub fn can_be_saddled(&self, alive: bool) -> (r: bool)
        ensures
            r == (alive && self.entity.age >= 0),
    {
        alive && !self.is_baby()
    }

    pub fn set_saddled(&mut self, saddled: bool)
        ensures
            final(self).saddled == saddled,
            final(self).entity == old(self).entity,
            final(self).variant == old(self).variant,
    {
        self.saddled = saddled;
    }

    /// A saddle goes on a living grown pig without one; a saddled pig is
    /// mounted unless the item is its food; otherwise the animal logic
    /// decides.
    pub fn mob_interact(&mut self, item: Item, food_tag: bool, alive: bool) -> (r: PigInteraction)
        ensures
            r == if item == Item::Saddle && alive && old(self).entity.age >= 0 && !old(self).saddled {
                PigInteraction::Saddle
            } else if old(self).saddled && !spec_pig_food(item, food_tag) {
                PigInteraction::Mount
            } else {
                PigInteraction::Animal
            },
            final(self).saddled == (old(self).saddled || r == PigInteraction::Saddle),
            final(self).entity == old(self).entity,
            final(self).variant == old(self).variant,
    {
        if item == Item::Saddle && self.can_be_saddled(alive) && !self.is_saddled() {
            self.set_saddled(true);
            return PigInteraction::Saddle;
        }
        if self.is_saddled() && !Self::is_food(item, food_tag) {
            return PigInteraction::Mount;
        }
        PigInteraction::Animal
    }

    /// Loads the saddle flag: a saved byte of 1 means saddled; a missing one
    /// keeps the flag.
    pub fn read_saddle(&mut self, saved: Option<i8>)
        ensures
            final(self).saddled == match saved {
                Some(b) => b == 1,
                None => old(self).saddled,
            },
            final(self).entity == old(self).entity,
            final(self).variant == old(self).variant,
    {
        if let Some(b) = saved {
            self.saddled = b == 1;
        }
    }

    /// Sets the variant from a saved or commanded name.
    pub fn set_variant_name(&mut self, name: &str)
        ensures
            final(self).variant == spec_animal_variant_from_name(name@),
            final(self).entity == old(self).entity,
            final(self).saddled == old(self).saddled,
    {
        self.variant = AnimalVariant::from_name(name);
    }
}

} // verus!
