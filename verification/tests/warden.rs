use pumpkin::entity::Entity;
use pumpkin::warden::{
    AngerSound, SonicBoomTick, WardenEntity, WardenHeartbeatAndDarknessGoal, WardenSonicBoomGoal,
    DARKNESS_INTERVAL, MAX_ANGER, SONIC_BOOM_COOLDOWN, SONIC_CHARGE_TICKS,
};

#[test]
fn heartbeat_delay_matches_float_formula() {
    let mut w = WardenEntity::new(Entity::new(1));
    for anger in 0..=MAX_ANGER {
        w.set_anger_level(anger);
        let a = anger.min(80) as f32;
        let expected = 40 - (a / 80.0 * 30.0) as i32;
        assert_eq!(w.get_heartbeat_delay(), expected, "anger {anger}");
    }
}

#[test]
fn anger_is_clamped_and_roars_once() {
    let mut w = WardenEntity::new(Entity::new(1));
    assert_eq!(w.increase_anger_at(10), AngerSound::Listening);
    assert_eq!(w.increase_anger_at(35), AngerSound::ListeningAngry);
    assert_eq!(w.increase_anger_at(40), AngerSound::Roar);
    assert_eq!(w.get_anger_level(), 85);
    assert_eq!(w.increase_anger_at(1000), AngerSound::ListeningAngry);
    assert_eq!(w.get_anger_level(), MAX_ANGER);
    w.decrease_anger(500);
    assert_eq!(w.get_anger_level(), 0);
    w.set_anger_level(-7);
    assert_eq!(w.get_anger_level(), 0);
    assert_eq!(w.on_damage(), AngerSound::ListeningAngry);
    assert_eq!(w.get_anger_level(), 55);
}

#[test]
fn heartbeat_darkness_and_calming() {
    let goal = WardenHeartbeatAndDarknessGoal::new();
    assert!(goal.can_start() && goal.should_continue());
    let mut w = WardenEntity::new(Entity::new(1));
    w.set_anger_level(80);
    let mut beats = 0;
    let mut pulses = 0;
    for age in 1..=120 {
        let a = goal.tick(&mut w, age, Some(true));
        beats += a.heartbeat_sound as i32;
        pulses += a.darkness_pulse as i32;
        assert!(!a.sniff_sound);
    }
    // the first beat after 40 ticks, then every 10 at full anger
    assert_eq!(beats, 9);
    assert_eq!(pulses, 1);
    assert_eq!(w.darkness_timer, DARKNESS_INTERVAL);
    assert_eq!(w.out_of_melee_reach_ticks, 120);
    assert_eq!(w.get_anger_level(), 80);
    goal.tick(&mut w, 20, None);
    assert_eq!(w.get_anger_level(), 79);
    goal.tick(&mut w, 21, None);
    assert_eq!(w.get_anger_level(), 79);
    goal.tick(&mut w, 22, Some(false));
    assert_eq!(w.out_of_melee_reach_ticks, 0);
}

#[test]
fn calm_warden_sniffs() {
    let goal = WardenHeartbeatAndDarknessGoal::new();
    let mut w = WardenEntity::new(Entity::new(1));
    w.sniff_timer = 1;
    assert!(goal.tick(&mut w, 1, None).sniff_sound);
    assert!((120..240).contains(&w.sniff_timer));
}

#[test]
fn sonic_boom_cycle() {
    let goal = WardenSonicBoomGoal::new();
    let mut w = WardenEntity::new(Entity::new(1));
    for _ in 0..SONIC_BOOM_COOLDOWN {
        assert!(!goal.can_start(&mut w, true, true, true));
    }
    assert_eq!(w.sonic_boom_cooldown, 0);
    assert!(!goal.can_start(&mut w, false, true, true));
    assert!(!goal.can_start(&mut w, true, false, true));
    w.out_of_melee_reach_ticks = 201;
    assert!(goal.can_start(&mut w, true, false, true));
    goal.start(&mut w);
    assert!(goal.should_continue(&w));
    for _ in 0..SONIC_CHARGE_TICKS - 1 {
        assert_eq!(goal.tick(&mut w, true), SonicBoomTick::Charging);
    }
    assert_eq!(goal.tick(&mut w, true), SonicBoomTick::Fire);
    assert_eq!(w.sonic_boom_cooldown, SONIC_BOOM_COOLDOWN);
    assert_eq!(w.out_of_melee_reach_ticks, 0);
    goal.start(&mut w);
    w.sonic_charge_ticks = 1;
    assert_eq!(goal.tick(&mut w, false), SonicBoomTick::Fizzled);
    w.on_attack();
    assert_eq!(w.sonic_boom_cooldown, SONIC_BOOM_COOLDOWN);
}
