use pumpkin::geometry::BlockPos;
use pumpkin::vex::{
    ChargeTick, NearbyMob, VexChargeAttackGoal, VexCopyOwnerTargetGoal, VexEntity,
    VexRandomMoveGoal, VEX_XP_REWARD,
};
use pumpkin::world::{Block, BlockWorld};

#[test]
fn new_vex_is_bound_to_its_spawn() {
    let v = VexEntity::new(BlockPos::new(1, 2, 3));
    assert_eq!(v.get_bound_origin(), Some(BlockPos::new(1, 2, 3)));
    assert!(!v.is_charging());
    assert!(!v.has_limited_life());
    assert_eq!(v.get_owner_uuid(), None);
    assert!((80..160).contains(&v.ambient_sound_timer));
    assert_eq!(VEX_XP_REWARD, 3);
}

#[test]
fn charging_flag_byte() {
    let mut v = VexEntity::new(BlockPos::new(0, 0, 0));
    assert_eq!(v.set_charging(true), 1);
    assert!(v.is_charging());
    assert_eq!(v.set_charging(false), 0);
    assert_eq!(VexChargeAttackGoal::start(&mut v), 1);
    assert!(VexChargeAttackGoal::should_continue(&v, true, Some(true)));
    assert!(!VexChargeAttackGoal::should_continue(&v, false, Some(true)));
    assert_eq!(VexChargeAttackGoal::tick(&mut v, false, true), ChargeTick::Retarget);
    assert_eq!(VexChargeAttackGoal::tick(&mut v, false, false), ChargeTick::FlyOn);
    assert!(v.is_charging());
    assert_eq!(VexChargeAttackGoal::tick(&mut v, true, true), ChargeTick::Strike);
    assert!(!v.is_charging());
    VexChargeAttackGoal::start(&mut v);
    assert_eq!(VexChargeAttackGoal::stop(&mut v), 0);
    assert!(!v.is_charging());
}

#[test]
fn charge_start_roll() {
    assert!(VexChargeAttackGoal::can_start_with_roll(false, Some(true), 0, true));
    assert!(!VexChargeAttackGoal::can_start_with_roll(false, Some(true), 3, true));
    assert!(!VexChargeAttackGoal::can_start_with_roll(true, Some(true), 0, true));
    assert!(!VexChargeAttackGoal::can_start_with_roll(false, Some(true), 0, false));
    assert!(!VexChargeAttackGoal::can_start(true, Some(true), true));
    assert!(!VexChargeAttackGoal::can_start(false, None, true));
}

#[test]
fn limited_life_hurts_every_second() {
    let mut v = VexEntity::new(BlockPos::new(0, 0, 0));
    assert!(!v.tick_life());
    v.set_limited_life(2);
    assert!(!v.tick_life());
    assert_eq!(v.get_limited_life_ticks(), 1);
    assert!(v.tick_life());
    assert_eq!(v.get_limited_life_ticks(), 20);
}

#[test]
fn saved_bound_and_data() {
    let arr = vec![4, 5, 6];
    assert_eq!(VexEntity::saved_bound(Some(&arr), None, None, None), Some(BlockPos::new(4, 5, 6)));
    assert_eq!(VexEntity::saved_bound(None, Some(1), Some(2), Some(3)), Some(BlockPos::new(1, 2, 3)));
    assert_eq!(VexEntity::saved_bound(None, Some(1), None, Some(3)), None);
    let mut v = VexEntity::new(BlockPos::new(0, 0, 0));
    v.read_saved(None, None, Some(30), None, Some(77));
    assert!(v.has_limited_life());
    assert_eq!(v.get_limited_life_ticks(), 30);
    assert_eq!(v.get_owner_uuid(), Some(77));
    assert_eq!(v.get_bound_origin(), Some(BlockPos::new(0, 0, 0)));
}

#[test]
fn random_move_picks_first_air_spot() {
    let mut world = BlockWorld::new();
    let bound = BlockPos::new(0, 64, 0);
    world.set_block(BlockPos::new(1, 64, 0), Block::Stone);
    let tries = [(1, 0, 0), (2, 1, -3), (0, 0, 1)];
    assert_eq!(VexRandomMoveGoal::pick_spot(&world, &bound, &tries), Some(BlockPos::new(2, 65, -3)));
    world.set_block(BlockPos::new(2, 65, -3), Block::Stone);
    world.set_block(BlockPos::new(0, 64, 1), Block::Stone);
    assert_eq!(VexRandomMoveGoal::pick_spot(&world, &bound, &tries), None);
    for _ in 0..20 {
        if let Some(p) = VexRandomMoveGoal::start(&world, &bound) {
            assert!((p.x - bound.x).abs() <= 7 && (p.y - bound.y).abs() <= 5 && (p.z - bound.z).abs() <= 7);
            assert_eq!(world.get_block(&p), Block::Air);
        }
    }
    assert!(VexRandomMoveGoal::can_start_with_roll(false, 0));
    assert!(!VexRandomMoveGoal::can_start(true));
}

#[test]
fn copies_owner_target() {
    let mut v = VexEntity::new(BlockPos::new(0, 0, 0));
    let nearby = vec![
        NearbyMob { uuid: 5, target_alive: Some(true) },
        NearbyMob { uuid: 9, target_alive: None },
        NearbyMob { uuid: 9, target_alive: Some(true) },
    ];
    assert_eq!(VexCopyOwnerTargetGoal::can_start(&v, false, &nearby), None);
    v.set_owner_uuid(Some(9));
    assert_eq!(VexCopyOwnerTargetGoal::can_start(&v, false, &nearby), Some(2));
    assert_eq!(VexCopyOwnerTargetGoal::can_start(&v, true, &nearby), None);
    assert!(VexCopyOwnerTargetGoal::should_continue(Some(true)));
}

#[test]
fn random_move_in_open_air_finds_a_spot_nearby() {
    let world = BlockWorld::new();
    let bound = BlockPos::new(0, 64, 0);
    let spot = VexRandomMoveGoal::start(&world, &bound).expect("open air has a spot");
    assert!((spot.x - bound.x).abs() <= 7);
    assert!((spot.y - bound.y).abs() <= 5);
    assert!((spot.z - bound.z).abs() <= 7);
}
