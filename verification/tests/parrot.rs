use pumpkin::item::Item;
use pumpkin::parrot::{is_poisonous_parrot_food, ParrotVariant, COOKIE_POISON_DURATION};

#[test]
fn cookie_is_poisonous_parrot_food() {
    assert!(is_poisonous_parrot_food(Item::Cookie));
}

#[test]
fn parrot_food_is_not_poisonous() {
    assert!(!is_poisonous_parrot_food(Item::WheatSeeds));
    assert!(!is_poisonous_parrot_food(Item::CookedChicken));
}

#[test]
fn poison_lasts_45_seconds() {
    assert_eq!(COOKIE_POISON_DURATION, 900);
}

#[test]
fn parrot_variant_ids_round_trip() {
    for id in 0..5 {
        assert_eq!(ParrotVariant::from_id(id).id(), id);
    }
    assert_eq!(ParrotVariant::from_id(17), ParrotVariant::RedBlue);
}

#[test]
fn parrot_variant_names_with_and_without_namespace() {
    assert_eq!(ParrotVariant::from_name("minecraft:gray"), ParrotVariant::Gray);
    assert_eq!(ParrotVariant::from_name("yellow"), ParrotVariant::YellowBlue);
    assert_eq!(ParrotVariant::from_name("purple"), ParrotVariant::RedBlue);
}
