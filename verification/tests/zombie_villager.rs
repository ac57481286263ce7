use pumpkin::entity::Entity;
use pumpkin::geometry::BlockPos;
use pumpkin::item::Item;
use pumpkin::world::{Block, BlockWorld};
use pumpkin::zombie_villager::{
    uuid_to_words, words_to_uuid, CureInteraction, VillagerData, ZombieVillagerEntity,
};

#[test]
fn golden_apple_cures_only_weakened() {
    let mut zv = ZombieVillagerEntity::new(Entity::new(1), 2, 0);
    assert_eq!(zv.villager_data, VillagerData { type_id: 2, profession: 0, level: 1 });
    assert_eq!(zv.mob_interact(Item::GoldenApple, 7, false), CureInteraction::Ignored);
    assert!(!zv.is_converting());
    assert_eq!(zv.mob_interact(Item::Cookie, 7, true), CureInteraction::Pass);
    assert_eq!(zv.mob_interact(Item::GoldenApple, 7, true), CureInteraction::StartCure);
    assert!(zv.is_converting());
    assert!((3600..=6000).contains(&zv.conversion_time));
    assert_eq!(zv.conversion_starter, Some(7));
    assert_eq!(zv.mob_interact(Item::GoldenApple, 8, true), CureInteraction::Ignored);
    assert_eq!(zv.conversion_starter, Some(7));
    assert!(!zv.remove_when_far_away());
}

#[test]
fn conversion_counts_down_and_finishes() {
    let mut zv = ZombieVillagerEntity::new(Entity::new(1), 2, 0);
    zv.start_converting(None, 5);
    assert!(!zv.conversion_step(true, 2));
    assert_eq!(zv.conversion_time, 3);
    assert!(!zv.conversion_step(false, 2));
    assert_eq!(zv.conversion_time, 3);
    assert!(zv.conversion_step(true, 3));
    assert_eq!(zv.conversion_time, -1);
    assert_eq!(zv.saved_conversion_time(), -1);
}

#[test]
fn boosters_are_counted_up_to_fourteen() {
    let mut world = BlockWorld::new();
    let pos = BlockPos::new(0, 64, 0);
    assert_eq!(ZombieVillagerEntity::count_conversion_boosters(&world, &pos), 0);
    world.set_block(BlockPos::new(1, 64, 0), Block::IronBars);
    world.set_block(BlockPos::new(-4, 60, 4), Block::Bed);
    world.set_block(BlockPos::new(5, 64, 0), Block::IronBars);
    assert_eq!(ZombieVillagerEntity::count_conversion_boosters(&world, &pos), 2);
    for i in 0..20 {
        world.set_block(BlockPos::new(i % 9 - 4, 66, i / 9 - 1), Block::IronBars);
    }
    assert_eq!(ZombieVillagerEntity::count_conversion_boosters(&world, &pos), 14);
}

#[test]
fn gossip_is_capped() {
    assert_eq!(ZombieVillagerEntity::cure_gossip(0, 0, 100, 100), (20, 25));
    assert_eq!(ZombieVillagerEntity::cure_gossip(90, 80, 100, 100), (100, 100));
}

#[test]
fn saved_villager_data_defaults() {
    assert_eq!(
        ZombieVillagerEntity::saved_villager_data(None, None, None),
        VillagerData { type_id: 2, profession: 0, level: 1 }
    );
    assert_eq!(
        ZombieVillagerEntity::saved_villager_data(Some(3), Some(4), Some(5)),
        VillagerData { type_id: 3, profession: 4, level: 5 }
    );
}

#[test]
fn read_saved_conversion_restores_cure() {
    let mut zv = ZombieVillagerEntity::new(Entity::new(1), 2, 0);
    zv.read_saved_conversion(Some(300), Some(42));
    assert_eq!(zv.conversion_time, 300);
    assert_eq!(zv.conversion_starter, Some(42));
    zv.read_saved_conversion(None, Some(43));
    assert_eq!(zv.conversion_time, -1);
    assert_eq!(zv.conversion_starter, Some(42));
}

#[test]
fn uuid_words_round_trip() {
    let u: u128 = 0x0123_4567_89ab_cdef_fedc_ba98_7654_3210;
    let w = uuid_to_words(u);
    assert_eq!(w[0], 0x0123_4567);
    assert_eq!(w[3], 0x7654_3210);
    assert_eq!(words_to_uuid(&w.to_vec()), Some(u));
    let hi: u128 = u128::MAX;
    assert_eq!(words_to_uuid(&uuid_to_words(hi).to_vec()), Some(hi));
    assert_eq!(words_to_uuid(&vec![1, 2, 3]), None);
}

#[test]
fn baby_zombie_villager_age() {
    let mut zv = ZombieVillagerEntity::new(Entity::new(1), 2, 0);
    zv.set_baby(true);
    assert!(zv.is_baby());
    zv.set_baby(false);
    assert!(!zv.is_baby());
}

#[test]
fn cure_saves_and_loads() {
    let mut zv = ZombieVillagerEntity::new(Entity::new(1), 2, 0);
    zv.start_converting(Some(99), 4321);
    let mut other = ZombieVillagerEntity::new(Entity::new(2), 2, 0);
    other.read_saved_conversion(Some(zv.saved_conversion_time()), zv.conversion_starter);
    assert_eq!(other.conversion_time, 4321);
    assert_eq!(other.conversion_starter, Some(99));
    let idle = ZombieVillagerEntity::new(Entity::new(3), 2, 0);
    other.read_saved_conversion(Some(idle.saved_conversion_time()), None);
    assert!(!other.is_converting());
}
