use pumpkin::blaze::{BlazeShootFireballGoal, FireballSpread};
use pumpkin::entity::{to_goal_ticks, Difficulty, Entity};
use pumpkin::golem::{DefendVillageTargetGoal, FlowerStatus, IronGolemEntity, PlayerNearby, OFFER_FLOWER_TICKS};
use pumpkin::projectile::{SmallFireballEntity, ThrownItemEntity, WitherSkullEntity};
use pumpkin::skeleton::{BoggedSkeletonEntity, ShearResult, WitherSkeletonEntity};
use pumpkin::teleport::{JavaClient, TeleportResult};
use pumpkin::text::{str_equal, strip_namespace};
use pumpkin::zombie::{DrownedEntity, HuskEntity, HuskTick, ZombieEntity, HUSK_CONVERSION_TICKS};

#[test]
fn goal_ticks_round_up() {
    assert_eq!(to_goal_ticks(0), 0);
    assert_eq!(to_goal_ticks(1), 1);
    assert_eq!(to_goal_ticks(10), 5);
    assert_eq!(to_goal_ticks(121), 61);
}

#[test]
fn golem_flower_and_attack_timers() {
    let mut g = IronGolemEntity::new(Entity::new(1));
    assert_eq!(g.offer_flower(true), FlowerStatus::OfferFlower);
    assert_eq!(g.get_offer_flower_tick(), OFFER_FLOWER_TICKS);
    g.on_attack();
    for _ in 0..15 {
        g.mob_tick();
    }
    assert_eq!(g.attack_animation_tick, 0);
    assert_eq!(g.get_offer_flower_tick(), OFFER_FLOWER_TICKS - 15);
    assert_eq!(g.offer_flower(false), FlowerStatus::StopOfferFlower);
    assert_eq!(g.get_offer_flower_tick(), 0);
}

fn player(id: i32, reputation: i32) -> PlayerNearby {
    PlayerNearby { player_id: id, exempt: false, in_combat_range: true, reputation }
}

#[test]
fn golem_defends_village_from_hated_players() {
    let golem = IronGolemEntity::new(Entity::new(1));
    let mut goal = DefendVillageTargetGoal::new();
    assert_eq!(goal.reciprocal_chance, 5);
    let villagers = vec![
        vec![player(1, 0), PlayerNearby { exempt: true, ..player(2, -500) }],
        vec![player(3, -100), player(4, -200)],
    ];
    assert_eq!(goal.find_target(&golem, &villagers), Some(3));
    assert!(!goal.can_start_with_roll(&golem, &villagers, 2));
    assert_eq!(goal.target, None);
    assert!(goal.can_start_with_roll(&golem, &villagers, 0));
    assert_eq!(goal.target, Some(3));
    goal.stop();
    assert_eq!(goal.target, None);
    let mut made = IronGolemEntity::new(Entity::new(2));
    made.set_player_created(true);
    assert_eq!(goal.find_target(&made, &villagers), None);
    assert!(!goal.can_start(&made, &villagers));
}

#[test]
fn blaze_volley() {
    let mut g = BlazeShootFireballGoal::new();
    g.start();
    let mut fireballs = vec![];
    let mut charged = vec![];
    for t in 0..200 {
        let a = g.tick(true, false, false, true);
        assert!(a.approach && a.look_at_target && !a.melee_attack);
        if let Some(f) = a.fireball {
            fireballs.push((t, f));
        }
        if let Some(c) = a.set_charged {
            charged.push((t, c));
        }
    }
    assert_eq!(charged, vec![(0, true), (78, false), (178, true)]);
    assert_eq!(
        fireballs,
        vec![(60, FireballSpread::Tight), (66, FireballSpread::Wide), (72, FireballSpread::Wide)]
    );
}

#[test]
fn blaze_melee_and_no_target() {
    let mut g = BlazeShootFireballGoal::new();
    let a = g.tick(true, true, true, true);
    assert!(a.melee_attack);
    assert_eq!(g.melee_cooldown, 20);
    assert!(!g.tick(true, true, true, true).melee_attack);
    let idle = g.tick(false, false, false, false);
    assert!(!idle.approach && idle.fireball.is_none() && !idle.melee_attack);
    g.stop();
    assert_eq!((g.attack_step, g.melee_cooldown, g.last_seen), (0, 0, 0));
    assert!(g.can_start(true) && !g.should_continue(false));
}

#[test]
fn teleport_confirmations() {
    let c = JavaClient;
    let mut awaiting: Option<(i32, (i64, i64))> = None;
    assert_eq!(c.handle_confirm_teleport(&mut awaiting, 1), (TeleportResult::NotTeleporting, None));
    awaiting = Some((5, (10, 20)));
    assert_eq!(c.handle_confirm_teleport(&mut awaiting, 4), (TeleportResult::StaleId, None));
    assert!(awaiting.is_some());
    assert_eq!(c.handle_confirm_teleport(&mut awaiting, 6), (TeleportResult::WrongId, None));
    assert!(JavaClient::kicks(TeleportResult::WrongId));
    assert!(!JavaClient::kicks(TeleportResult::StaleId));
    assert_eq!(c.handle_confirm_teleport(&mut awaiting, 5), (TeleportResult::Success, Some((10, 20))));
    assert!(awaiting.is_none());
}

#[test]
fn projectiles_remember_their_shooter() {
    let shooter = Entity::new(42);
    let t = ThrownItemEntity::new(Entity::new(1), &shooter);
    assert_eq!(t.owner_id, Some(42));
    assert_eq!(ThrownItemEntity::unowned(Entity::new(2)).owner_id, None);
    assert_eq!(SmallFireballEntity::new_shot(Entity::new(3), &shooter).get_owner_id(), Some(42));
    assert_eq!(SmallFireballEntity::new(Entity::new(4)).get_owner_id(), None);
    let mut skull = WitherSkullEntity::new(Entity::new(5));
    assert!(!skull.is_dangerous());
    skull.set_dangerous(true);
    assert!(skull.is_dangerous());
    assert_eq!(WitherSkullEntity::hit_wither_ticks(Difficulty::Hard), 800);
    assert_eq!(WitherSkullEntity::hit_wither_ticks(Difficulty::Normal), 200);
    assert_eq!(WitherSkullEntity::hit_wither_ticks(Difficulty::Easy), 0);
}

#[test]
fn skeletons() {
    let mut b = BoggedSkeletonEntity::new(Entity::new(1));
    assert_eq!(b.mob_interact(false), ShearResult::Pass);
    assert_eq!(b.mob_interact(true), ShearResult::Sheared);
    assert!(b.is_sheared());
    assert_eq!(b.mob_interact(true), ShearResult::Pass);
    assert_eq!(WitherSkeletonEntity::new(Entity::new(2)).attack_wither_ticks(), 200);
    assert!(WitherSkeletonEntity::ignores_damage(true));
    assert!(!WitherSkeletonEntity::ignores_damage(false));
}

#[test]
fn zombies_and_husks() {
    let mut z = ZombieEntity::with_can_break_doors(Entity::new(1), false);
    assert!(!z.can_break_doors());
    z.set_can_break_doors(true);
    assert!(z.can_break_doors());
    z.set_baby(true);
    assert!(z.is_baby());
    let mut h = HuskEntity::new(Entity::new(2));
    let mut converted_at = None;
    for t in 0..700 {
        if h.mob_tick(true) == HuskTick::ConvertToZombie {
            converted_at = Some(t);
            break;
        }
    }
    assert_eq!(converted_at, Some(HUSK_CONVERSION_TICKS - 1));
    assert_eq!(h.mob_tick(false), HuskTick::Stay);
    assert_eq!(h.conversion_time, 0);
    assert_eq!(HuskEntity::attack_hunger_ticks(Difficulty::Hard), 420);
    assert_eq!(HuskEntity::attack_hunger_ticks(Difficulty::Peaceful), 0);
    let d = DrownedEntity::with_can_break_doors(Entity::new(3), true);
    assert!(d.entity.can_break_doors);
}

#[test]
fn namespaces() {
    assert_eq!(strip_namespace("minecraft:stone"), "stone");
    assert_eq!(strip_namespace("stone"), "stone");
    assert_eq!(strip_namespace("other:stone"), "other:stone");
    assert_eq!(strip_namespace("minecraft:"), "");
    assert!(str_equal("abc", "abc"));
    assert!(!str_equal("abc", "abd"));
    assert!(!str_equal("abc", "ab"));
}

#[test]
fn golem_with_sure_chance_always_looks() {
    let golem = IronGolemEntity::new(Entity::new(1));
    let mut goal = DefendVillageTargetGoal { target: None, reciprocal_chance: 1 };
    let villagers = vec![vec![player(7, -100)]];
    assert!(goal.can_start(&golem, &villagers));
    assert_eq!(goal.target, Some(7));
    assert!(!goal.can_start(&golem, &vec![]));
    assert_eq!(goal.target, None);
}

#[test]
fn defend_goal_default_is_new() {
    let d = DefendVillageTargetGoal::default();
    let n = DefendVillageTargetGoal::new();
    assert_eq!((d.target, d.reciprocal_chance), (n.target, n.reciprocal_chance));
}

#[test]
fn spawned_zombie_rolls() {
    let (z, jockey) = ZombieEntity::new_spawned(Entity::new(3), false, true);
    assert!(!z.is_baby());
    assert!(!jockey);
    let (z, jockey) = ZombieEntity::new_spawned(Entity::new(4), true, false);
    assert!(z.is_baby());
    assert!(!jockey);
    let (z, jockey) = ZombieEntity::new_spawned(Entity::new(5), true, true);
    assert!(z.is_baby() && !z.can_break_doors());
    assert!(jockey);
}
