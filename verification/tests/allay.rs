use pumpkin::allay::{
    AllayEntity, AllayErrand, AllayInteraction, AllayRetrieveAndDepositGoal, DepositTarget,
    GroundItem, DUPLICATION_COOLDOWN_TICKS, NOTEBLOCK_MEMORY_TICKS,
};
use pumpkin::geometry::BlockPos;
use pumpkin::item::Item;
use pumpkin::world::{Block, BlockWorld};

#[test]
fn give_take_and_duplicate() {
    let mut a = AllayEntity::new();
    assert_eq!(a.mob_interact(None, 1), AllayInteraction::Pass);
    assert_eq!(a.mob_interact(Some(Item::Diamond), 1), AllayInteraction::Give);
    assert_eq!(a.held_item, Some(Item::Diamond));
    assert_eq!(a.owner, Some(1));
    assert_eq!(a.mob_interact(Some(Item::Emerald), 2), AllayInteraction::Pass);
    a.hear_noteblock(BlockPos::new(1, 2, 3));
    assert_eq!(a.mob_interact(None, 2), AllayInteraction::Take);
    assert_eq!(a.held_item, None);
    assert_eq!(a.owner, None);
    assert_eq!(a.liked_noteblock_pos, None);

    a.hear_jukebox(BlockPos::new(5, 5, 5), true);
    assert!(a.is_dancing());
    assert_eq!(a.mob_interact(Some(Item::AmethystShard), 3), AllayInteraction::Duplicate);
    assert!(!a.can_duplicate());
    assert_eq!(a.duplication_cooldown, DUPLICATION_COOLDOWN_TICKS);
    // cannot duplicate again right away: the shard is simply given
    assert_eq!(a.mob_interact(Some(Item::AmethystShard), 3), AllayInteraction::Give);
}

#[test]
fn jukebox_starts_and_stops_dance() {
    let mut a = AllayEntity::new();
    let j = BlockPos::new(0, 64, 0);
    a.hear_jukebox(j, true);
    assert!(a.is_dancing());
    assert_eq!(a.jukebox_pos, Some(j));
    a.hear_jukebox(BlockPos::new(9, 9, 9), false);
    assert!(a.is_dancing());
    a.hear_jukebox(j, false);
    assert!(!a.is_dancing());
    assert_eq!(a.jukebox_pos, None);
}

#[test]
fn ticks_heal_and_check_jukebox() {
    let mut world = BlockWorld::new();
    let j = BlockPos::new(0, 64, 0);
    world.set_block(j, Block::Jukebox);
    let mut a = AllayEntity::new();
    a.hear_jukebox(j, true);
    let mut heals = 0;
    for _ in 0..20 {
        let t = a.tick_with(&world, true, 0);
        if t.heal {
            heals += 1;
        }
        assert!(!t.stopped_dancing);
    }
    assert_eq!(heals, 2);
    assert!(a.is_dancing());
    world.set_block(j, Block::Air);
    let mut stopped = false;
    for _ in 0..20 {
        stopped |= a.tick_with(&world, true, 0).stopped_dancing;
    }
    assert!(stopped);
    assert!(!a.is_dancing());
}

#[test]
fn duplication_cooldown_runs_out() {
    let world = BlockWorld::new();
    let mut a = AllayEntity::new();
    a.set_can_duplicate(false);
    a.duplication_cooldown = 2;
    assert!(!a.tick_with(&world, false, 0).duplication_ready);
    assert!(a.tick_with(&world, false, 0).duplication_ready);
    assert!(a.can_duplicate());
}

#[test]
fn ambient_sound_waits_then_plays() {
    let world = BlockWorld::new();
    let mut a = AllayEntity::new();
    for _ in 0..81 {
        assert!(!a.tick_with(&world, false, 0).ambient_sound);
    }
    assert_eq!(a.ambient_sound_time, 1);
    assert!(a.tick_with(&world, false, 0).ambient_sound);
    assert_eq!(a.ambient_sound_time, -80);
    a.on_damage();
    assert_eq!(a.ambient_sound_time, -80);
}

#[test]
fn saved_data_loads() {
    let mut a = AllayEntity::new();
    a.read_saved(Some(true), Some(100), Some(7), (Some(1), Some(2), Some(3)), None);
    assert!(!a.can_duplicate());
    assert_eq!(a.duplication_cooldown, 100);
    assert_eq!(a.owner, Some(7));
    assert_eq!(a.liked_noteblock_pos, Some(BlockPos::new(1, 2, 3)));
    assert_eq!(a.liked_noteblock_ticks, NOTEBLOCK_MEMORY_TICKS);
}

#[test]
fn errand_throws_picks_and_flies() {
    let mut a = AllayEntity::new();
    assert_eq!(AllayRetrieveAndDepositGoal::errand(&mut a, false, None, None), AllayErrand::Idle);
    a.mob_interact(Some(Item::Diamond), 1);
    assert!(AllayRetrieveAndDepositGoal::can_start(&a));
    let near = DepositTarget { within_throw: true, beyond_four: false };
    let far = DepositTarget { within_throw: false, beyond_four: true };
    assert_eq!(AllayRetrieveAndDepositGoal::errand(&mut a, true, Some(far), None), AllayErrand::FlyToTarget);
    assert_eq!(AllayRetrieveAndDepositGoal::errand(&mut a, true, Some(near), None), AllayErrand::Throw);
    assert_eq!(a.item_pickup_cooldown, 60);
    let item = GroundItem { entity_id: 4, within_reach: true };
    assert_eq!(AllayRetrieveAndDepositGoal::errand(&mut a, false, Some(far), Some(item)), AllayErrand::FlyToTarget);
    a.item_pickup_cooldown = 0;
    assert_eq!(AllayRetrieveAndDepositGoal::errand(&mut a, false, Some(far), Some(item)), AllayErrand::PickUp { entity_id: 4, then_fly_to_target: true });
    a.item_pickup_cooldown = 0;
    assert_eq!(AllayRetrieveAndDepositGoal::errand(&mut a, false, Some(near), Some(item)), AllayErrand::PickUp { entity_id: 4, then_fly_to_target: false });
    assert_eq!(a.item_pickup_cooldown, 20);
    a.item_pickup_cooldown = 0;
    let away = GroundItem { entity_id: 4, within_reach: false };
    assert_eq!(AllayRetrieveAndDepositGoal::errand(&mut a, false, None, Some(away)), AllayErrand::FlyToItem { entity_id: 4 });
}

#[test]
fn noteblock_memory_fades() {
    let mut world = BlockWorld::new();
    let n = BlockPos::new(1, 1, 1);
    world.set_block(n, Block::Other(77));
    let mut a = AllayEntity::new();
    a.hear_noteblock(n);
    a.item_pickup_cooldown = 3;
    AllayRetrieveAndDepositGoal::tick_memory(&mut a, &world);
    assert_eq!(a.liked_noteblock_ticks, NOTEBLOCK_MEMORY_TICKS - 1);
    assert_eq!(a.liked_noteblock_pos, Some(n));
    assert_eq!(a.item_pickup_cooldown, 2);
    world.set_block(n, Block::Air);
    AllayRetrieveAndDepositGoal::tick_memory(&mut a, &world);
    assert_eq!(a.liked_noteblock_pos, None);
}
