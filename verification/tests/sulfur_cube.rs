use pumpkin::item::Item;
use pumpkin::sulfur_cube::{
    get_archetype_for_item, Archetype, CubeDamage, CubeInteraction, CubeItem, CubeTick,
    GroundStack, HeldBlock, SulfurCubeEntity,
};

fn item(item: Item, archetype: Option<Archetype>) -> CubeItem {
    CubeItem { item, archetype, food_tag: false, swallowable_tag: archetype.is_some() }
}

fn float_fed_age(age: i32) -> i32 {
    let current_age = if age >= 0 { -24000 } else { age };
    let delta = ((-current_age as f32 / 20.0) * 0.1).round() as i32 * 20;
    let delta = delta.max(2400);
    (current_age + delta).min(0)
}

#[test]
fn feeding_matches_the_float_formula() {
    let slime = CubeItem { item: Item::SlimeBall, archetype: None, food_tag: false, swallowable_tag: false };
    // single-precision floats hold every age down to -2^24 exactly
    let mut ages: Vec<i32> = (-200_000..0).collect();
    ages.extend((-16_777_216..-200_000).step_by(997));
    ages.extend([0, 5, -16_777_216, -12_345_678, -1_000_000]);
    for age in ages {
        let mut cube = SulfurCubeEntity::new(1);
        cube.age = age;
        let expected = float_fed_age(age);
        let r = cube.mob_interact(Some(slime));
        assert_eq!(cube.age, expected, "age {age}");
        assert_eq!(r, CubeInteraction::Fed { grew: expected >= 0 });
    }
}

#[test]
fn push_cooldowns_match_seconds() {
    let table: [(Archetype, f32); 12] = [
        (Archetype::Regular, 0.5),
        (Archetype::Bouncy, 0.7),
        (Archetype::SlowBouncy, 0.5),
        (Archetype::SlowFlat, 0.9),
        (Archetype::FastFlat, 0.9),
        (Archetype::Light, 0.7),
        (Archetype::FastSliding, 1.0),
        (Archetype::SlowSliding, 1.0),
        (Archetype::Sticky, 0.5),
        (Archetype::HighResistance, 0.7),
        (Archetype::Explosive, 0.7),
        (Archetype::Hot, 0.7),
    ];
    for (a, secs) in table {
        assert_eq!(a.push_cooldown_ticks(), (secs * 20.0) as i32);
    }
}

#[test]
fn archetype_comes_from_first_tag() {
    let mut tags = [false; 12];
    assert_eq!(get_archetype_for_item(&tags, false), None);
    assert_eq!(get_archetype_for_item(&tags, true), Some(Archetype::Regular));
    tags[8] = true;
    tags[3] = true;
    assert_eq!(get_archetype_for_item(&tags, true), Some(Archetype::HighResistance));
    assert_eq!(Archetype::Explosive.fuse(), Some(120));
    assert_eq!(Archetype::Hot.fuse(), None);
    assert!(Archetype::Hot.buoyant());
    assert!(!Archetype::Sticky.buoyant());
}

#[test]
fn new_cube_sizes() {
    let baby = SulfurCubeEntity::new(0);
    assert_eq!((baby.size, baby.age, baby.max_health), (1, -24000, 4));
    let adult = SulfurCubeEntity::new(5);
    assert_eq!((adult.size, adult.age, adult.max_health), (2, 0, 8));
    assert!(baby.is_baby());
    assert!(!adult.is_baby());
}

#[test]
fn swallow_shear_and_prime() {
    let mut cube = SulfurCubeEntity::new(2);
    let tnt = item(Item::Other(500), Some(Archetype::Explosive));
    match cube.mob_interact(Some(tnt)) {
        CubeInteraction::Swallowed(a) => {
            assert_eq!(a.ejected, None);
            assert!(!a.high_armor);
        }
        other => panic!("unexpected {other:?}"),
    }
    assert_eq!(cube.fuse, 120);
    assert!(!cube.is_primed);
    // the same item is refused
    assert_eq!(cube.absorb_block(Some(tnt)), None);
    // a second block ejects the first
    let obsidian = item(Item::Other(501), Some(Archetype::HighResistance));
    let a = cube.absorb_block(Some(obsidian)).unwrap();
    assert_eq!(a.ejected, Some(HeldBlock { item: Item::Other(500), archetype: Some(Archetype::Explosive) }));
    assert!(a.high_armor);
    assert_eq!(cube.fuse, -1);
    // back to tnt and light it
    cube.absorb_block(Some(tnt));
    let flint = item(Item::FlintAndSteel, None);
    assert_eq!(cube.mob_interact(Some(flint)), CubeInteraction::Primed);
    assert!(cube.is_primed);
    assert_eq!(cube.fuse, 120);
    // a lit cube ignores everything and takes no damage
    assert_eq!(cube.mob_interact(Some(item(Item::Shears, None))), CubeInteraction::Pass);
    assert_eq!(cube.pre_damage(false, false, false), CubeDamage::Ignored);
}

#[test]
fn shears_drop_the_block() {
    let mut cube = SulfurCubeEntity::new(2);
    let sticky = item(Item::Other(502), Some(Archetype::Sticky));
    cube.absorb_block(Some(sticky));
    let r = cube.mob_interact(Some(item(Item::Shears, None)));
    assert_eq!(r, CubeInteraction::Sheared { dropped: HeldBlock { item: Item::Other(502), archetype: Some(Archetype::Sticky) } });
    assert_eq!(cube.held, None);
    assert_eq!(cube.pickup_timer, 100);
    assert!(!cube.can_pick_up_items());
}

#[test]
fn fuse_burns_down_and_explodes() {
    let mut cube = SulfurCubeEntity::new(2);
    cube.absorb_block(Some(item(Item::Other(500), Some(Archetype::Explosive))));
    assert_eq!(cube.tick_timers(true), CubeTick::Lit);
    assert!(cube.is_primed);
    cube.fuse = 1;
    assert_eq!(cube.tick_timers(false), CubeTick::Quiet);
    assert_eq!(cube.tick_timers(false), CubeTick::Explode);
}

#[test]
fn baby_grows_up_at_age_zero() {
    let mut cube = SulfurCubeEntity::new(1);
    cube.age = -1;
    assert_eq!(cube.tick_timers(false), CubeTick::GrewUp);
    assert_eq!(cube.size, 2);
    assert_eq!(cube.max_health, 8);
}

#[test]
fn explosion_lights_quickly() {
    let mut cube = SulfurCubeEntity::new(2);
    cube.absorb_block(Some(item(Item::Other(500), Some(Archetype::Explosive))));
    assert_eq!(cube.pre_damage(false, true, false), CubeDamage::KnockedBack);
    assert!(cube.is_primed);
    assert!((10..30).contains(&cube.fuse));
}

#[test]
fn hot_cube_burns_and_death_splits() {
    let mut cube = SulfurCubeEntity::new(2);
    cube.absorb_block(Some(item(Item::Other(503), Some(Archetype::Hot))));
    assert!(cube.applies_contact_damage());
    assert!(cube.push_sound());
    assert_eq!(cube.push_sound_cooldown, 14);
    assert!(!cube.push_sound());
    let (dropped, babies) = cube.on_death();
    assert_eq!(dropped.unwrap().item, Item::Other(503));
    assert_eq!(babies, 2);
    assert_eq!(cube.held, None);
}

#[test]
fn bucket_and_leash() {
    let mut cube = SulfurCubeEntity::new(2);
    assert_eq!(cube.mob_interact(Some(item(Item::Bucket, None))), CubeInteraction::Bucketed);
    assert_eq!(cube.mob_interact(None), CubeInteraction::Pass);
    cube.absorb_block(Some(item(Item::Other(504), Some(Archetype::Light))));
    assert_eq!(cube.mob_interact(None), CubeInteraction::Leash);
}

#[test]
fn picks_up_the_first_free_swallowable_stack() {
    let slime = CubeItem { item: Item::SlimeBall, archetype: None, food_tag: false, swallowable_tag: false };
    let sticky = item(Item::Other(502), Some(Archetype::Sticky));
    let hot = item(Item::Other(503), Some(Archetype::Hot));
    let ground = vec![
        GroundStack { pickup_delay: 0, item: slime, count: 5 },
        GroundStack { pickup_delay: 10, item: sticky, count: 1 },
        GroundStack { pickup_delay: 0, item: sticky, count: 0 },
        GroundStack { pickup_delay: 0, item: hot, count: 3 },
    ];
    let mut baby = SulfurCubeEntity::new(1);
    assert_eq!(baby.check_ground_item_pickup(&ground), None);
    let mut cube = SulfurCubeEntity::new(2);
    assert_eq!(cube.check_ground_item_pickup(&ground), Some(3));
    assert_eq!(cube.held, Some(HeldBlock { item: Item::Other(503), archetype: Some(Archetype::Hot) }));
    // holding a block, it picks nothing more up
    assert_eq!(cube.check_ground_item_pickup(&ground), None);
    let mut waiting = SulfurCubeEntity::new(2);
    waiting.pickup_timer = 5;
    assert_eq!(waiting.check_ground_item_pickup(&ground), None);
}

#[test]
fn saved_cube_loads_back() {
    let mut cube = SulfurCubeEntity::new(2);
    cube.absorb_block(Some(item(Item::Other(500), Some(Archetype::Explosive))));
    cube.prime_with(true, 7);
    cube.pickup_timer = 33;
    cube.from_bucket = true;
    let (fuse, primed, pickup, bucket) = cube.saved();
    let mut other = SulfurCubeEntity::new(2);
    other.read_saved(Some(fuse), Some(primed), Some(pickup), Some(bucket), cube.held);
    assert_eq!(other.saved(), (17, true, 33, true));
    assert_eq!(other.held, cube.held);
}

#[test]
fn only_a_hot_cube_deals_contact_damage() {
    let mut cube = SulfurCubeEntity::new(2);
    assert_eq!(cube.apply_contact_damage(), None);
    cube.absorb_block(Some(item(Item::Other(503), Some(Archetype::Hot))));
    assert_eq!(cube.apply_contact_damage(), Some(1));
    let mut light = SulfurCubeEntity::new(2);
    light.absorb_block(Some(item(Item::Other(504), Some(Archetype::Light))));
    assert_eq!(light.apply_contact_damage(), None);
}
