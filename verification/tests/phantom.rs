use pumpkin::geometry::BlockPos;
use pumpkin::phantom::{
    PhantomAttackPhase, PhantomCircleAroundAnchorGoal, PhantomAttackPlayerTargetGoal, PhantomAttackStrategyGoal, PhantomEntity,
    PhantomSweepAttackGoal, SweepOutcome, PHANTOM_XP_REWARD,
};

#[test]
fn new_phantom_is_anchored_above_spawn() {
    let p = PhantomEntity::new(3, 70, -2);
    assert_eq!(p.get_size(), 0);
    assert_eq!(p.get_anchor_point(), Some(BlockPos::new(3, 75, -2)));
    assert_eq!(p.get_attack_phase(), PhantomAttackPhase::Circle);
    assert!((80..160).contains(&p.ambient_sound_timer));
    assert_eq!(PHANTOM_XP_REWARD, 5);
}

#[test]
fn size_is_clamped_and_sets_damage() {
    let mut p = PhantomEntity::new(0, 0, 0);
    assert_eq!(p.set_size(3), 9);
    assert_eq!(p.get_size(), 3);
    assert_eq!(p.set_size(-4), 6);
    assert_eq!(p.get_size(), 0);
    assert_eq!(p.set_size(100), 70);
    assert_eq!(p.get_size(), 64);
}

#[test]
fn flap_every_25_ticks() {
    let mut p = PhantomEntity::new(0, 0, 0);
    let mut flaps = vec![];
    for t in 0..60 {
        if p.tick_flap(4) {
            flaps.push(t);
        }
    }
    // counter + 12 is a multiple of 25 at counters 13 and 38
    assert_eq!(flaps, vec![13, 38]);
}

#[test]
fn ambient_sound_restarts() {
    let mut p = PhantomEntity::new(0, 0, 0);
    p.ambient_sound_timer = 0;
    assert!(p.tick_ambient());
    assert!((100..200).contains(&p.ambient_sound_timer));
    p.ambient_sound_timer = 5;
    assert!(!p.tick_ambient());
    assert_eq!(p.ambient_sound_timer, 4);
}

#[test]
fn saved_size_and_anchor() {
    assert_eq!(PhantomEntity::saved_size(Some(4), Some(9)), 4);
    assert_eq!(PhantomEntity::saved_size(None, Some(9)), 9);
    assert_eq!(PhantomEntity::saved_size(None, None), 0);
    let arr = vec![1, 2, 3];
    assert_eq!(
        PhantomEntity::saved_anchor(Some(&arr), Some(7), Some(8), Some(9)),
        Some(BlockPos::new(1, 2, 3))
    );
    let bad = vec![1, 2];
    assert_eq!(PhantomEntity::saved_anchor(Some(&bad), Some(7), Some(8), Some(9)), None);
    assert_eq!(
        PhantomEntity::saved_anchor(None, Some(7), Some(8), Some(9)),
        Some(BlockPos::new(7, 8, 9))
    );
    assert_eq!(PhantomEntity::saved_anchor(None, Some(7), None, Some(9)), None);
}

#[test]
fn anchor_above_is_at_least_64() {
    assert_eq!(PhantomAttackStrategyGoal::anchor_above(1, 10, 2, 5), BlockPos::new(1, 64, 2));
    assert_eq!(PhantomAttackStrategyGoal::anchor_above(1, 100, 2, 5), BlockPos::new(1, 125, 2));
}

#[test]
fn strategy_swoops_after_countdown() {
    let mut goal = PhantomAttackStrategyGoal::new();
    let mut p = PhantomEntity::new(0, 80, 0);
    goal.start(&mut p, Some((0, 70, 0)));
    assert_eq!(goal.next_sweep_tick, 10);
    let a = p.get_anchor_point().unwrap();
    assert!((90..110).contains(&a.y));
    for _ in 0..9 {
        assert!(!goal.tick_with(&mut p, Some((0, 70, 0)), 0, 0));
    }
    assert!(goal.tick_with(&mut p, Some((0, 70, 0)), 3, 2));
    assert_eq!(p.get_attack_phase(), PhantomAttackPhase::Swoop);
    assert_eq!(p.get_anchor_point(), Some(BlockPos::new(0, 93, 0)));
    assert_eq!(goal.next_sweep_tick, 200);
    // while swooping nothing changes
    assert!(!goal.tick(&mut p, Some((0, 70, 0))));
    assert_eq!(goal.next_sweep_tick, 200);
}

#[test]
fn strategy_stop_lifts_anchor() {
    let mut p = PhantomEntity::new(0, 80, 0);
    PhantomAttackStrategyGoal::stop(&mut p);
    let y = p.get_anchor_point().unwrap().y;
    assert!((95..115).contains(&y));
    assert!(PhantomAttackStrategyGoal::can_start(Some(true)));
    assert!(!PhantomAttackStrategyGoal::can_start(None));
}

#[test]
fn sweep_outcomes() {
    let mut goal = PhantomSweepAttackGoal::new();
    let mut p = PhantomEntity::new(0, 80, 0);
    p.set_attack_phase(PhantomAttackPhase::Swoop);
    assert!(PhantomSweepAttackGoal::can_start(Some(true), PhantomAttackPhase::Swoop));
    goal.start();
    assert!(goal.tick_cat_search());
    assert_eq!(goal.cat_search_tick, 20);
    assert!(!goal.tick_cat_search());
    assert_eq!(goal.dive_outcome(&mut p, false, false, false), SweepOutcome::Dive);
    assert_eq!(p.get_attack_phase(), PhantomAttackPhase::Swoop);
    assert_eq!(goal.dive_outcome(&mut p, false, true, false), SweepOutcome::Bite);
    assert_eq!(p.get_attack_phase(), PhantomAttackPhase::Circle);
    p.set_attack_phase(PhantomAttackPhase::Swoop);
    assert_eq!(goal.dive_outcome(&mut p, true, true, true), SweepOutcome::ScaredOff);
    assert!(!goal.should_continue(Some(true), PhantomAttackPhase::Swoop));
    assert!(goal.stop(&mut p));
}

#[test]
fn player_scan_every_two_seconds() {
    let mut goal = PhantomAttackPlayerTargetGoal::new();
    let mut scans = 0;
    for _ in 0..100 {
        if goal.scan_due(false) {
            scans += 1;
        }
    }
    // at ticks 20, 60 and 100
    assert_eq!(scans, 3);
    assert!(!PhantomAttackPlayerTargetGoal::should_continue(Some(false)));
}

#[test]
fn circling_while_untargeted_or_circling() {
    assert!(PhantomCircleAroundAnchorGoal::can_start(false, PhantomAttackPhase::Swoop));
    assert!(PhantomCircleAroundAnchorGoal::can_start(true, PhantomAttackPhase::Circle));
    assert!(!PhantomCircleAroundAnchorGoal::should_continue(true, PhantomAttackPhase::Swoop));
}
