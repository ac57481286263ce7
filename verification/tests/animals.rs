use pumpkin::camel::{
    CamelEntity, CamelInteraction, FLAG_BRED, FLAG_EATING, FLAG_SADDLE, FLAG_STANDING, FLAG_TAME,
};
use pumpkin::entity::Entity;
use pumpkin::farm::{AnimalVariant, CowEntity, CowInteraction, PigEntity, PigInteraction};
use pumpkin::item::Item;

fn baby(id: i32) -> Entity {
    let mut e = Entity::new(id);
    e.age = -24000;
    e
}

#[test]
fn camel_flags_set_and_clear_one_bit() {
    let mut camel = CamelEntity::new(Entity::new(1));
    assert_eq!(camel.set_flag(FLAG_TAME, true), FLAG_TAME);
    assert_eq!(camel.set_flag(FLAG_BRED, true), FLAG_TAME | FLAG_BRED);
    assert!(camel.has_flag(FLAG_TAME));
    assert!(camel.has_flag(FLAG_BRED));
    assert!(!camel.has_flag(FLAG_EATING));
    assert_eq!(camel.set_flag(FLAG_TAME, false), FLAG_BRED);
    assert!(!camel.has_flag(FLAG_TAME));
    assert!(camel.has_flag(FLAG_BRED));
    assert!(!camel.has_flag(FLAG_STANDING));
}

#[test]
fn camel_saddle_and_riders() {
    let mut camel = CamelEntity::new(Entity::new(1));
    assert_eq!(camel.mob_interact(Item::Other(900), true, false, 0), CamelInteraction::OpenInventory);
    assert_eq!(camel.mob_interact(Item::Saddle, false, false, 0), CamelInteraction::Saddle);
    assert!(camel.is_saddled());
    assert!(camel.has_flag(FLAG_SADDLE));
    assert_eq!(camel.mob_interact(Item::Saddle, false, false, 0), CamelInteraction::Mount);
    assert_eq!(camel.mob_interact(Item::Cactus, false, false, 0), CamelInteraction::Feed);
    assert_eq!(camel.mob_interact(Item::Other(900), false, false, 1), CamelInteraction::Mount);
    assert_eq!(camel.mob_interact(Item::Other(900), false, false, 2), CamelInteraction::Pass);
    assert!(camel.on_damage(true));
    assert!(!camel.is_saddled());
    assert!(!camel.on_damage(true));
}

#[test]
fn baby_camel_is_not_mounted() {
    let mut camel = CamelEntity::new(baby(2));
    assert_eq!(camel.mob_interact(Item::Saddle, true, false, 0), CamelInteraction::Pass);
    assert!(!camel.is_saddled());
}

#[test]
fn camel_tick_syncs_saddle_flag() {
    let mut camel = CamelEntity::new(Entity::new(1));
    camel.saddle_slot = true;
    camel.mob_tick();
    assert!(camel.has_flag(FLAG_SADDLE));
    camel.saddle_slot = false;
    camel.mob_tick();
    assert!(!camel.has_flag(FLAG_SADDLE));
    camel.set_dashing(true);
    assert!(camel.is_dashing());
}

#[test]
fn animal_variant_names_and_ids_round_trip() {
    for v in [AnimalVariant::Cold, AnimalVariant::Temperate, AnimalVariant::Warm] {
        assert_eq!(AnimalVariant::from_name(v.name()), v);
        assert_eq!(AnimalVariant::from_id(v.id()), v);
    }
    assert_eq!(AnimalVariant::from_name("warm"), AnimalVariant::Warm);
    assert_eq!(AnimalVariant::from_name("minecraft:cold"), AnimalVariant::Cold);
    assert_eq!(AnimalVariant::from_name("something"), AnimalVariant::Temperate);
    assert_eq!(AnimalVariant::from_id(7), AnimalVariant::Temperate);
}

#[test]
fn cow_is_milked_by_bucket() {
    let cow = CowEntity::new(Entity::new(3));
    assert_eq!(cow.mob_interact(Item::Bucket), CowInteraction::Milk);
    assert_eq!(cow.mob_interact(Item::Wheat), CowInteraction::Animal);
    let calf = CowEntity::new(baby(4));
    assert_eq!(calf.mob_interact(Item::Bucket), CowInteraction::Animal);
    assert!(CowEntity::is_food(Item::Wheat, false));
    let mut cow = cow;
    cow.set_variant_name("minecraft:warm");
    assert_eq!(cow.variant, AnimalVariant::Warm);
}

#[test]
fn pig_saddle_then_ride() {
    let mut pig = PigEntity::new(Entity::new(5));
    assert!(!pig.is_saddled());
    assert_eq!(pig.mob_interact(Item::Saddle, false, true), PigInteraction::Saddle);
    assert!(pig.is_saddled());
    assert_eq!(pig.mob_interact(Item::Other(900), false, true), PigInteraction::Mount);
    assert_eq!(pig.mob_interact(Item::Carrot, false, true), PigInteraction::Animal);
    let mut piglet = PigEntity::new(baby(6));
    assert_eq!(piglet.mob_interact(Item::Saddle, false, true), PigInteraction::Animal);
    piglet.read_saddle(Some(1));
    assert!(piglet.is_saddled());
    piglet.read_saddle(None);
    assert!(piglet.is_saddled());
    piglet.read_saddle(Some(0));
    assert!(!piglet.is_saddled());
}

#[test]
fn passive_animals_stay() {
    assert!(!CamelEntity::new(Entity::new(1)).remove_when_far_away());
    assert!(!CowEntity::new(Entity::new(2)).remove_when_far_away());
}
