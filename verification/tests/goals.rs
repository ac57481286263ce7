use pumpkin::entity::EntityKind;
use pumpkin::geometry::BlockPos;
use pumpkin::goals::{
    ActiveTargetGoal, JobSiteTick, TargetCandidate, WanderAroundGoal, WorkAtJobSiteGoal,
    DEFAULT_RECIPROCAL_CHANCE,
};
use pumpkin::world::{Block, BlockWorld};

fn cand(id: i32, kind: EntityKind, dist: f64) -> TargetCandidate {
    TargetCandidate { entity_id: id, kind, living: true, passes: true, distance_key: dist.to_bits() }
}

#[test]
fn nearest_target_of_the_kind() {
    let mut g = ActiveTargetGoal::with_default(EntityKind::Player);
    assert_eq!(g.reciprocal_chance, 5);
    assert_eq!(DEFAULT_RECIPROCAL_CHANCE, 10);
    let mut far_player = cand(1, EntityKind::Player, 100.0);
    let near_golem = cand(2, EntityKind::IronGolem, 1.0);
    let near_player = cand(3, EntityKind::Player, 4.0);
    let tie_player = cand(4, EntityKind::Player, 4.0);
    let cands = vec![far_player, near_golem, near_player, tie_player];
    g.find_closest_target(&cands);
    assert_eq!(g.target, Some(3));
    let mut any = ActiveTargetGoal::with_mob_class(10);
    any.find_closest_target(&cands);
    assert_eq!(any.target, Some(2));
    far_player.passes = false;
    let only = vec![far_player];
    g.find_closest_target(&only);
    assert_eq!(g.target, None);
}

#[test]
fn target_search_needs_the_roll() {
    let mut g = ActiveTargetGoal::new(EntityKind::Player, 10);
    let cands = vec![cand(7, EntityKind::Player, 2.0)];
    assert!(!g.can_start_with_roll(&cands, 3));
    assert_eq!(g.target, None);
    assert!(g.can_start_with_roll(&cands, 0));
    assert_eq!(g.target, Some(7));
    let mut always = ActiveTargetGoal::new(EntityKind::Player, 0);
    assert!(always.can_start(&cands));
    assert!(!always.can_start(&vec![]));
}

fn floor_world() -> BlockWorld {
    let mut w = BlockWorld::new();
    for x in -3..=3 {
        for z in -3..=3 {
            w.set_block(BlockPos::new(x, 63, z), Block::Stone);
        }
    }
    w
}

#[test]
fn wander_lands_on_the_surface() {
    let w = floor_world();
    let base = BlockPos::new(0, 64, 0);
    assert_eq!(WanderAroundGoal::wander_try(&w, &base, (0, 0, 0)), None);
    assert_eq!(WanderAroundGoal::wander_try(&w, &base, (2, 3, 1)), Some(BlockPos::new(2, 64, 1)));
    assert_eq!(WanderAroundGoal::wander_try(&w, &base, (2, -1, 1)), Some(BlockPos::new(2, 64, 1)));
    // off the floor there is nothing to stand on
    assert_eq!(WanderAroundGoal::wander_try(&w, &base, (9, 0, 0)), None);
    let mut wet = floor_world();
    wet.set_block(BlockPos::new(1, 64, 1), Block::Water);
    assert_eq!(WanderAroundGoal::wander_try(&wet, &base, (1, 0, 1)), None);
    let tries = vec![(9, 0, 0), (0, 0, 0), (-1, 2, -2)];
    assert_eq!(
        WanderAroundGoal::find_wander_target_with(&w, &base, &tries),
        Some(BlockPos::new(-1, 64, -2))
    );
    for _ in 0..10 {
        if let Some(p) = WanderAroundGoal::find_wander_target(&w, &base) {
            assert_eq!(p.y, 64);
            assert!(p.x.abs() <= 3 && p.z.abs() <= 3);
        }
    }
}

#[test]
fn wander_goal_lifecycle() {
    let w = floor_world();
    let base = BlockPos::new(0, 64, 0);
    let mut g = WanderAroundGoal::new();
    assert_eq!(g.chance, 60);
    let tries = vec![(1, 0, 0)];
    assert!(!g.can_start_with(true, 0, &w, &base, &tries));
    assert!(!g.can_start_with(false, 5, &w, &base, &tries));
    assert!(g.can_start_with(false, 0, &w, &base, &tries));
    assert_eq!(g.target, Some(BlockPos::new(1, 64, 0)));
    assert!(WanderAroundGoal::should_continue(false, true));
    assert!(!WanderAroundGoal::should_continue(true, true));
    g.stop();
    assert_eq!(g.target, None);
}

#[test]
fn job_site_hours_and_ticks() {
    assert!(WorkAtJobSiteGoal::should_move_to_job_site(false, 2000));
    assert!(!WorkAtJobSiteGoal::should_move_to_job_site(false, 9000));
    assert!(WorkAtJobSiteGoal::should_move_to_job_site(true, 12000));
    let site = BlockPos::new(5, 64, 5);
    let mut g = WorkAtJobSiteGoal::new();
    assert!(!g.can_start(None, true, 3000));
    assert!(!g.can_start(Some(site), false, 100));
    assert!(g.can_start(Some(site), false, 3000));
    assert!(g.should_continue(Some(site), false, 3000));
    assert!(!g.should_continue(Some(BlockPos::new(0, 0, 0)), false, 3000));
    g.start();
    assert_eq!(g.tick(false, false), JobSiteTick::Walk);
    assert_eq!(g.tick(false, true), JobSiteTick::KeepWalking);
    let mut works = 0;
    for _ in 0..320 {
        if g.tick(true, false) == JobSiteTick::Work {
            works += 1;
        }
    }
    // first after 20 ticks, then every 300
    assert_eq!(works, 2);
    assert!(g.stop(true, true));
    assert_eq!(g.tick(true, false), JobSiteTick::Nothing);
}

#[test]
fn stand_spots_and_nearest() {
    let mut w = BlockWorld::new();
    let site = BlockPos::new(0, 64, 0);
    w.set_block(site, Block::Other(300));
    w.set_block(BlockPos::new(0, 63, 1), Block::Stone);
    w.set_block(BlockPos::new(1, 62, 0), Block::Stone);
    w.set_block(BlockPos::new(-1, 64, 0), Block::Stone);
    let spots = WorkAtJobSiteGoal::stand_spots(&w, &site);
    assert_eq!(spots[0], Some(BlockPos::new(0, 64, 1)));
    assert_eq!(spots[1], Some(BlockPos::new(1, 63, 0)));
    assert_eq!(spots[2], None);
    assert_eq!(spots[3], Some(BlockPos::new(-1, 65, 0)));
    let keys = [9.0f64.to_bits(), 4.0f64.to_bits(), 0, 4.0f64.to_bits()];
    assert_eq!(WorkAtJobSiteGoal::pick_stand_pos(site, &spots, &keys), BlockPos::new(1, 63, 0));
    assert_eq!(WorkAtJobSiteGoal::pick_stand_pos(site, &[None; 4], &keys), site);
}
