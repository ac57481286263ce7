use pumpkin::cushion::{CushionEntity, CushionItem, FIRST_CUSHION_ID, LAST_CUSHION_ID};
use pumpkin::entity::Entity;
use pumpkin::experience_orb::{ExperienceOrbEntity, ORB_LIFETIME};
use pumpkin::fish::{
    air_tick, common_variant, pack_variant, pattern, random_tropical_fish_variant, CodEntity,
    GlowSquidEntity, PuffSound, PufferfishEntity, SquidEntity, TropicalFishEntity, DROWN_AIR,
    MAX_AIR, STATE_FULL, STATE_MID, STATE_SMALL,
};
use pumpkin::geometry::BlockPos;

#[test]
fn cushion_colours_round_trip() {
    for color in 0u8..=20 {
        let c = CushionEntity::new(BlockPos::new(0, 0, 0), color);
        let id = c.drop_item_id();
        assert!(CushionItem::is_cushion(id));
        assert_eq!(CushionItem::item_id_to_color(id), color.min(15));
    }
    assert_eq!(CushionItem::item_id_to_color(FIRST_CUSHION_ID), 0);
    assert_eq!(CushionItem::item_id_to_color(LAST_CUSHION_ID), 15);
    assert_eq!(CushionItem::item_id_to_color(5), 0);
    assert!(!CushionItem::is_cushion(LAST_CUSHION_ID + 1));
    let mut c = CushionEntity::new(BlockPos::new(1, 2, 3), 4);
    c.set_color(9);
    assert_eq!(c.get_color(), 9);
    assert!(c.on_interact(false, false));
    assert!(!c.on_interact(true, false));
    assert!(!c.on_interact(false, true));
    assert!(c.on_passenger_removed(false));
    assert!(!c.on_passenger_removed(true));
}

#[test]
fn orbs_split_and_add_up() {
    assert_eq!(ExperienceOrbEntity::round_to_orb_size(0), 1);
    assert_eq!(ExperienceOrbEntity::round_to_orb_size(2), 1);
    assert_eq!(ExperienceOrbEntity::round_to_orb_size(3), 3);
    assert_eq!(ExperienceOrbEntity::round_to_orb_size(2476), 1237);
    assert_eq!(ExperienceOrbEntity::round_to_orb_size(100_000), 2477);
    assert_eq!(ExperienceOrbEntity::spawn_amounts(0), Vec::<u32>::new());
    assert_eq!(ExperienceOrbEntity::spawn_amounts(11), vec![7, 3, 1]);
    for amount in [1u32, 5, 38, 999, 5000, 123_456] {
        let orbs = ExperienceOrbEntity::spawn_amounts(amount);
        assert_eq!(orbs.iter().map(|&o| o as u64).sum::<u64>(), amount as u64);
        assert!(orbs.windows(2).all(|w| w[0] >= w[1]));
    }
}

#[test]
fn orb_ages_and_is_picked_up() {
    let mut orb = ExperienceOrbEntity::new(Entity::new(1), 7);
    orb.orb_age = ORB_LIFETIME - 1;
    assert!(!orb.age_tick());
    assert!(orb.age_tick());
    let mut delay = 0u32;
    assert_eq!(orb.on_player_collision(true, true, false, &mut delay), Some(7));
    assert_eq!(delay, 2);
    assert_eq!(orb.on_player_collision(true, true, false, &mut delay), None);
    let mut zero = 0u32;
    assert_eq!(orb.on_player_collision(true, true, true, &mut zero), None);
    assert_eq!(orb.on_player_collision(false, true, false, &mut zero), None);
    assert_eq!(zero, 0);
    assert_eq!(ExperienceOrbEntity::experience_after_mending(3), Some(3));
    assert_eq!(ExperienceOrbEntity::experience_after_mending(0), None);
}

#[test]
fn breathing_out_of_water() {
    assert_eq!(air_tick(5, true), (MAX_AIR, false));
    assert_eq!(air_tick(5, false), (4, false));
    assert_eq!(air_tick(DROWN_AIR + 1, false), (0, true));
    let mut cod = CodEntity::new(Entity::new(1));
    let mut drowned_at = None;
    for t in 0..400 {
        if cod.breathe(false) {
            drowned_at = Some(t);
            break;
        }
    }
    // 300 air down to -20 takes 320 ticks
    assert_eq!(drowned_at, Some(319));
    assert_eq!(cod.air_supply, 0);
    assert!(cod.remove_when_far_away());
    cod.set_from_bucket(true);
    assert!(!cod.remove_when_far_away());
}

#[test]
fn pufferfish_inflates_and_deflates() {
    let mut p = PufferfishEntity::new(Entity::new(2));
    assert_eq!(p.puff_tick(true), PuffSound::BlowUp);
    assert_eq!(p.get_puff_state(), STATE_MID);
    let mut full_at = None;
    for t in 0..60 {
        if p.puff_tick(true) == PuffSound::BlowUp {
            full_at = Some(t);
            break;
        }
    }
    assert_eq!(full_at, Some(40));
    assert_eq!(p.get_puff_state(), STATE_FULL);
    let mut sounds = vec![];
    for t in 0..200 {
        if p.puff_tick(false) == PuffSound::BlowOut {
            sounds.push(t);
        }
    }
    assert_eq!(sounds, vec![61, 101]);
    assert_eq!(p.get_puff_state(), STATE_SMALL);
    assert_eq!(PufferfishEntity::read_puff_state(7), STATE_FULL);
    assert_eq!(PufferfishEntity::read_puff_state(-3), STATE_SMALL);
}

#[test]
fn pufferfish_stings_with_cooldown() {
    let mut p = PufferfishEntity::new(Entity::new(2));
    assert_eq!(p.sting_tick(STATE_SMALL, true), None);
    assert_eq!(p.sting_tick(STATE_FULL, true), Some(3));
    assert_eq!(p.sting_tick(STATE_FULL, true), None);
    assert_eq!(p.sting_cooldown, 19);
    assert_eq!(p.sting_tick(STATE_MID, false), None);
}

#[test]
fn tropical_fish_variants() {
    assert_eq!(common_variant(0), 117506305);
    assert_eq!(pattern(0), 0);
    assert_eq!(pattern(7), 257);
    assert_eq!(pack_variant(257, 3, 14), 257 | (3 << 16) | (14 << 24));
    let commons: Vec<i32> = (0..22).map(common_variant).collect();
    for _ in 0..100 {
        let v = random_tropical_fish_variant();
        let packed_ok = {
            let p = (v & 0xFFFF) as u16;
            let b = (v >> 16) & 0xFF;
            let c = (v >> 24) & 0xFF;
            (0..12).any(|i| pattern(i) == p) && b < 16 && c < 16
        };
        assert!(commons.contains(&v) || packed_ok);
    }
    let mut f = TropicalFishEntity::new(Entity::new(3));
    f.set_variant(42);
    assert_eq!(f.get_variant(), 42);
}

#[test]
fn glow_squid_goes_dark_then_glows() {
    let mut s = GlowSquidEntity::new(Entity::new(4));
    s.set_dark_ticks(2);
    assert!(!s.water_tick());
    assert!(!s.water_tick());
    assert!(s.water_tick());
    assert_eq!(s.get_dark_ticks(), 0);
}

#[test]
fn squid_clocks() {
    let mut s = SquidEntity::new();
    assert!(s.swim_pulse(true));
    assert!(!s.swim_pulse(true));
    assert!(s.swim_pulse(false));
    for _ in 0..121 {
        assert!(!s.ambient_with(0));
    }
    assert_eq!(s.ambient_sound_time, 1);
    assert!(!s.ambient_with(5));
    assert!(s.ambient_with(1));
    assert_eq!(s.ambient_sound_time, -120);
    s.ambient_sound_time = 50;
    s.on_damage();
    assert_eq!(s.ambient_sound_time, -120);
    assert!(!s.breathe(true));
    assert_eq!(s.air_supply, MAX_AIR);
}

#[test]
fn despawning_rules() {
    let mut p = PufferfishEntity::new(Entity::new(1));
    assert!(p.remove_when_far_away());
    p.set_from_bucket(true);
    assert!(!p.remove_when_far_away());
    let mut t = TropicalFishEntity::new(Entity::new(2));
    assert!(t.remove_when_far_away());
    t.set_from_bucket(true);
    assert!(!t.remove_when_far_away());
    assert!(!SquidEntity::new().remove_when_far_away());
}

#[test]
fn puff_state_stays_in_range_over_many_ticks() {
    let mut p = PufferfishEntity::new(Entity::new(9));
    assert_eq!(p.get_puff_state(), STATE_SMALL);
    let mut last = p.get_puff_state();
    for t in 0..400 {
        let threat = (t / 90) % 2 == 0;
        p.puff_tick(threat);
        let now = p.get_puff_state();
        assert!((STATE_SMALL..=STATE_FULL).contains(&now));
        assert!((now - last).abs() <= 1);
        last = now;
    }
    assert_eq!(PufferfishEntity::read_puff_state(7), STATE_FULL);
    assert_eq!(PufferfishEntity::read_puff_state(-3), STATE_SMALL);
    assert_eq!(PufferfishEntity::read_puff_state(STATE_MID), STATE_MID);
}

#[test]
fn hurt_glow_squid_goes_dark() {
    let mut s = GlowSquidEntity::new(Entity::new(5));
    assert!(s.water_tick());
    s.on_damage();
    assert_eq!(s.get_dark_ticks(), 100);
    assert!(!s.water_tick());
    assert_eq!(s.get_dark_ticks(), 99);
}

#[test]
fn bucketed_cod_persists() {
    let mut c = CodEntity::new(Entity::new(3));
    assert!(!c.is_from_bucket());
    assert!(!c.requires_custom_persistence());
    c.read_saved(Some(true));
    assert!(c.is_from_bucket());
    assert!(c.requires_custom_persistence());
    assert!(!c.remove_when_far_away());
    c.read_saved(None);
    assert!(c.is_from_bucket());
}
