use pumpkin::bow_attack::{
    ArrowKind, BowAttackGoal, BowMovement, BowSenses, RangeBand, DRAW_TIME,
};
use pumpkin::breeze::{
    can_jump_from_current_pos, snap_to_surface, BreezeAction, BreezeDamage, BreezeEntity,
    BreezeSenses, BreezeState, BreezeTarget, TargetRange,
};
use pumpkin::entity::{Difficulty, EntityKind};
use pumpkin::geometry::BlockPos;
use pumpkin::world::{Block, BlockWorld};

type Point = (i64, i64, i64);

fn senses(target: Option<BreezeTarget>) -> BreezeSenses<Point> {
    BreezeSenses {
        target,
        on_ground: true,
        slide_away: None,
        can_jump: false,
        jump_target: None,
        reposition: None,
        shot_target_present: true,
        launch_possible: false,
        in_water: false,
        slide_arrived: false,
    }
}

#[test]
fn new_breeze_timers() {
    for _ in 0..50 {
        let b: BreezeEntity<Point> = BreezeEntity::new();
        assert!((1..=80).contains(&b.whirl_sound_timer));
        assert!((80..160).contains(&b.ambient_sound_timer));
        assert_eq!((b.jump_cooldown, b.shoot_cooldown), (10, 10));
        assert!(matches!(b.state, BreezeState::Standing));
    }
    assert!(BreezeEntity::<Point>::can_attack(EntityKind::Player));
    assert!(BreezeEntity::<Point>::can_attack(EntityKind::IronGolem));
    assert!(!BreezeEntity::<Point>::can_attack(EntityKind::Breeze));
}

#[test]
fn breeze_shoots_through_its_states() {
    let mut b: BreezeEntity<Point> = BreezeEntity::new();
    b.shoot_cooldown = 0;
    let t = Some(BreezeTarget { entity_id: 9, range: TargetRange::Shooting });
    assert!(matches!(b.step(&senses(t)), BreezeAction::Inhale { target_id: 9 }));
    for _ in 0..15 {
        assert!(matches!(b.step(&senses(t)), BreezeAction::Aim { target_id: 9 }));
    }
    assert!(matches!(b.step(&senses(t)), BreezeAction::Shoot { target_id: 9 }));
    for _ in 0..4 {
        assert!(matches!(b.step(&senses(t)), BreezeAction::Recover));
    }
    assert!(matches!(b.step(&senses(t)), BreezeAction::StandUp));
    assert!(matches!(b.state, BreezeState::Standing));
    assert_eq!(b.shoot_cooldown, 10);
}

#[test]
fn breeze_slides_away_from_near_target() {
    let mut b: BreezeEntity<Point> = BreezeEntity::new();
    let mut s = senses(Some(BreezeTarget { entity_id: 1, range: TargetRange::Near }));
    s.slide_away = Some((5, 0, 5));
    assert!(matches!(b.step(&s), BreezeAction::SlideAway { target: (5, 0, 5) }));
    assert!(matches!(b.state, BreezeState::Sliding { ticks: 20, .. }));
    s.slide_arrived = true;
    assert!(matches!(b.step(&s), BreezeAction::StandUp));
    assert_eq!(b.shoot_cooldown, 0);
}

#[test]
fn breeze_jumps_and_lands() {
    let mut b: BreezeEntity<Point> = BreezeEntity::new();
    b.jump_cooldown = 0;
    let mut s = senses(Some(BreezeTarget { entity_id: 1, range: TargetRange::Far }));
    s.can_jump = true;
    s.jump_target = Some(BlockPos::new(3, 4, 5));
    assert!(matches!(b.step(&s), BreezeAction::Charge { .. }));
    for _ in 0..10 {
        assert!(matches!(b.step(&s), BreezeAction::FaceJumpTarget { .. }));
    }
    s.launch_possible = true;
    assert!(matches!(b.step(&s), BreezeAction::Launch { .. }));
    s.on_ground = false;
    assert!(matches!(b.step(&s), BreezeAction::Glide));
    s.in_water = true;
    assert!(matches!(b.step(&s), BreezeAction::Land));
    assert_eq!((b.jump_cooldown, b.shoot_cooldown), (10, 0));
}

#[test]
fn breeze_ignores_far_away_and_missing_targets() {
    let mut b: BreezeEntity<Point> = BreezeEntity::new();
    b.shoot_cooldown = 0;
    assert!(matches!(b.step(&senses(None)), BreezeAction::Idle));
    let t = Some(BreezeTarget { entity_id: 1, range: TargetRange::Beyond });
    assert!(matches!(b.step(&senses(t)), BreezeAction::Idle));
}

#[test]
fn breeze_damage_rules() {
    let mut b: BreezeEntity<Point> = BreezeEntity::new();
    assert_eq!(b.pre_damage(true, false, false), BreezeDamage::Immune);
    assert_eq!(b.pre_damage(false, true, false), BreezeDamage::Deflect);
    assert_eq!(b.jump_cooldown, 10);
    assert_eq!(b.pre_damage(false, true, true), BreezeDamage::Hurt);
    assert_eq!(b.jump_cooldown, 2);
    b.tick_cooldowns();
    assert_eq!((b.jump_cooldown, b.shoot_cooldown), (1, 9));
    b.read_saved_timers(Some(5), None, Some(3));
    assert_eq!(b.saved_timers(), (5, 1, 3));
}

#[test]
fn breeze_sound_timers_restart() {
    let mut b: BreezeEntity<Point> = BreezeEntity::new();
    b.whirl_sound_timer = 1;
    b.ambient_sound_timer = 5;
    let (whirl, ambient) = b.tick_sound_timers();
    assert!(whirl && !ambient);
    assert!((1..=80).contains(&b.whirl_sound_timer));
    assert_eq!(b.ambient_sound_timer, 4);
}

#[test]
fn surface_snapping_and_jump_room() {
    let mut world = BlockWorld::new();
    let base = BlockPos::new(0, 70, 0);
    assert_eq!(snap_to_surface(&world, &base), None);
    world.set_block(BlockPos::new(0, 64, 0), Block::Stone);
    assert_eq!(snap_to_surface(&world, &base), Some(BlockPos::new(0, 65, 0)));
    world.set_block(BlockPos::new(0, 75, 0), Block::Stone);
    assert_eq!(snap_to_surface(&world, &BlockPos::new(0, 74, 0)), Some(BlockPos::new(0, 65, 0)));
    let pos = BlockPos::new(0, 65, 0);
    assert!(can_jump_from_current_pos(&world, &pos));
    world.set_block(BlockPos::new(0, 68, 0), Block::Water);
    assert!(can_jump_from_current_pos(&world, &pos));
    world.set_block(BlockPos::new(0, 69, 0), Block::Glass);
    assert!(!can_jump_from_current_pos(&world, &pos));
    world.set_block(pos, Block::HoneyBlock);
    assert!(!can_jump_from_current_pos(&world, &BlockPos::new(0, 65, 0)));
}

fn bow_senses(sight: bool, band: RangeBand) -> BowSenses {
    BowSenses {
        line_of_sight: sight,
        band,
        flip_clockwise: false,
        flip_backwards: false,
        difficulty: Difficulty::Normal,
    }
}

#[test]
fn archer_draws_and_shoots() {
    let mut g = BowAttackGoal::new(40);
    let a = g.tick(&bow_senses(true, RangeBand::Middle));
    assert!(a.draw);
    assert_eq!(a.movement, BowMovement::Chase);
    let mut shots = 0;
    for _ in 0..DRAW_TIME {
        let a = g.tick(&bow_senses(true, RangeBand::Middle));
        if a.shoot {
            shots += 1;
        }
    }
    assert_eq!(shots, 1);
    assert!(!g.drawing);
    assert_eq!(g.cooldown, 40);
}

#[test]
fn archer_strafes_after_seeing_target() {
    let mut g = BowAttackGoal::new(40);
    let mut last = None;
    for _ in 0..20 {
        last = Some(g.tick(&bow_senses(true, RangeBand::Close)));
    }
    assert_eq!(
        last.unwrap().movement,
        BowMovement::Strafe { backwards: true, clockwise: false }
    );
}

#[test]
fn archer_lowers_bow_when_sight_is_lost() {
    let mut g = BowAttackGoal::new(40);
    g.tick(&bow_senses(true, RangeBand::Middle));
    assert!(g.drawing);
    let mut released = false;
    for _ in 0..70 {
        if g.tick(&bow_senses(false, RangeBand::Middle)).release {
            released = true;
        }
    }
    assert!(released);
    assert!(!g.drawing);
}

#[test]
fn hard_archers_reload_quickly() {
    let mut g = BowAttackGoal::new(40);
    let mut s = bow_senses(true, RangeBand::Middle);
    s.difficulty = Difficulty::Hard;
    for _ in 0..=DRAW_TIME {
        g.tick(&s);
    }
    assert_eq!(g.cooldown, 20);
}

#[test]
fn arrows_and_spread() {
    assert_eq!(BowAttackGoal::arrow_kind(EntityKind::Bogged), ArrowKind::Poison);
    assert_eq!(BowAttackGoal::arrow_kind(EntityKind::Stray), ArrowKind::Slowness);
    assert_eq!(BowAttackGoal::arrow_kind(EntityKind::Skeleton), ArrowKind::Plain);
    assert_eq!(BowAttackGoal::divergence(Difficulty::Peaceful), 14);
    assert_eq!(BowAttackGoal::divergence(Difficulty::Hard), 2);
    assert!(BowAttackGoal::can_start(false, Some(true), true, true));
    assert!(!BowAttackGoal::can_start(true, Some(true), true, true));
    assert!(!BowAttackGoal::should_continue(false, None, true, true));
    let mut g = BowAttackGoal::new(40);
    g.tick(&bow_senses(true, RangeBand::Middle));
    assert!(g.stop());
    assert_eq!(g.cooldown, -1);
}

#[test]
fn breeze_timers_save_and_load() {
    let mut b: BreezeEntity<Point> = BreezeEntity::new();
    b.read_saved_timers(Some(33), Some(4), Some(7));
    let (w, j, s) = b.saved_timers();
    let mut other: BreezeEntity<Point> = BreezeEntity::new();
    other.read_saved_timers(Some(w), Some(j), Some(s));
    assert_eq!(other.saved_timers(), (33, 4, 7));
}

#[test]
fn whole_breeze_tick_runs_timers_cooldowns_then_state() {
    let mut b: BreezeEntity<Point> = BreezeEntity::new();
    b.whirl_sound_timer = 1;
    b.ambient_sound_timer = 50;
    b.shoot_cooldown = 1;
    let before = (b.whirl_sound_timer, b.ambient_sound_timer, b.jump_cooldown, b.shoot_cooldown);
    assert!(b.mob_tick(false, &senses(None)).is_none());
    assert_eq!(before, (b.whirl_sound_timer, b.ambient_sound_timer, b.jump_cooldown, b.shoot_cooldown));
    let t = Some(BreezeTarget { entity_id: 9, range: TargetRange::Shooting });
    let (whirl, idle, action) = b.mob_tick(true, &senses(t)).unwrap();
    assert!(whirl);
    assert!(!idle);
    assert!((1..=80).contains(&b.whirl_sound_timer));
    assert_eq!(b.ambient_sound_timer, 49);
    assert_eq!(b.jump_cooldown, 9);
    // the shoot cooldown reached 0 before the state machine ran: it inhales
    assert!(matches!(action, BreezeAction::Inhale { target_id: 9 }));
}
