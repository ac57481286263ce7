use pumpkin::geometry::BlockPos;
use pumpkin::potent_sulfur::{
    sculk_sensors_near, vibration_frequency, EruptionSound, GeyserPlan, PotentSulfurBlock,
    PotentSulfurBlockEntity, PotentSulfurState,
};
use pumpkin::world::{Block, BlockWorld};

fn geyser(below: Block, water: i32) -> (BlockWorld, BlockPos) {
    let mut w = BlockWorld::new();
    let pos = BlockPos::new(0, 60, 0);
    w.set_block(pos, Block::PotentSulfur);
    w.set_block(BlockPos::new(0, 59, 0), below);
    for k in 1..=water {
        w.set_block(BlockPos::new(0, 60 + k, 0), Block::Water);
    }
    (w, pos)
}

#[test]
fn state_follows_surroundings() {
    let (dry, pos) = geyser(Block::MagmaBlock, 0);
    assert_eq!(PotentSulfurBlock::on_place(&dry, &pos), PotentSulfurState::Dry);
    let (wet, pos) = geyser(Block::Stone, 2);
    assert_eq!(PotentSulfurBlock::on_place(&wet, &pos), PotentSulfurState::Wet);
    let (magma, pos) = geyser(Block::MagmaBlock, 2);
    assert_eq!(PotentSulfurBlock::on_place(&magma, &pos), PotentSulfurState::Dormant);
    assert_eq!(
        PotentSulfurBlock::valid_block_state(&magma, &pos, PotentSulfurState::Erupting),
        PotentSulfurState::Erupting
    );
    let (lava, pos) = geyser(Block::Lava, 2);
    assert_eq!(PotentSulfurBlock::on_place(&lava, &pos), PotentSulfurState::Continuous);
    assert_eq!(
        PotentSulfurBlock::placed_sound(PotentSulfurState::Continuous),
        Some(EruptionSound::ContinuousEruption)
    );
    assert_eq!(PotentSulfurBlock::placed_sound(PotentSulfurState::Erupting), Some(EruptionSound::Eruption));
    assert_eq!(PotentSulfurBlock::placed_sound(PotentSulfurState::Dormant), None);
}

#[test]
fn gas_source_is_the_air_above_the_water() {
    let (w, pos) = geyser(Block::MagmaBlock, 3);
    assert_eq!(PotentSulfurBlockEntity::find_noxious_gas_source_block(&w, pos), Some(BlockPos::new(0, 64, 0)));
    let (deep, pos) = geyser(Block::MagmaBlock, 5);
    assert_eq!(PotentSulfurBlockEntity::find_noxious_gas_source_block(&deep, pos), None);
    let (mut capped, pos) = geyser(Block::MagmaBlock, 2);
    capped.set_block(BlockPos::new(0, 63, 0), Block::Stone);
    assert_eq!(PotentSulfurBlockEntity::find_noxious_gas_source_block(&capped, pos), None);
    let e = PotentSulfurBlockEntity::new(pos);
    assert_eq!(e.water_blocks(64), 3);
    assert_eq!(e.water_blocks(61), 1);
    assert_eq!(PotentSulfurBlockEntity::launch_height(3), 18);
}

#[test]
fn plans_by_state_and_time() {
    let none = GeyserPlan { bubbles: false, gas_cloud: false, geyser_particles: false, nausea: false, countdown: false, launch: false };
    assert_eq!(PotentSulfurBlockEntity::plan(PotentSulfurState::Dry, 0, true), none);
    assert_eq!(
        PotentSulfurBlockEntity::plan(PotentSulfurState::Dormant, 60, true),
        GeyserPlan { bubbles: true, gas_cloud: true, geyser_particles: false, nausea: true, countdown: true, launch: false }
    );
    assert_eq!(
        PotentSulfurBlockEntity::plan(PotentSulfurState::Erupting, 3, true),
        GeyserPlan { bubbles: true, gas_cloud: false, geyser_particles: true, nausea: false, countdown: false, launch: true }
    );
    assert_eq!(PotentSulfurBlockEntity::plan(PotentSulfurState::Continuous, 3, false), none);
}

#[test]
fn dormant_and_erupting_alternate() {
    let mut e = PotentSulfurBlockEntity::new(BlockPos::new(0, 60, 0));
    // dormant with 2 water blocks and roll 4: 10 + 4 + 15 = 29 steps
    let mut steps = 0;
    loop {
        steps += 1;
        if let Some(s) = e.countdown_tick(PotentSulfurState::Dormant, 2, 4, 0) {
            assert_eq!(s, PotentSulfurState::Erupting);
            break;
        }
    }
    assert_eq!(steps, 29);
    // erupting with 2 water blocks and roll 1: 1 + 1 + 1 = 3 steps
    let mut steps = 0;
    loop {
        steps += 1;
        if let Some(s) = e.countdown_tick(PotentSulfurState::Erupting, 2, 0, 1) {
            assert_eq!(s, PotentSulfurState::Dormant);
            break;
        }
    }
    assert_eq!(steps, 3);
    assert_eq!(e.saved_countdown(), Some(0));
    e.reset_countdown();
    assert_eq!(e.saved_countdown(), None);
    let loaded = PotentSulfurBlockEntity::from_saved(BlockPos::new(0, 0, 0), None);
    assert_eq!(loaded.waiting_countdown, -1);
}

#[test]
fn eruptions_shake_nearby_sensors() {
    let mut w = BlockWorld::new();
    let p = BlockPos::new(0, 60, 0);
    w.set_block(BlockPos::new(8, 60, -8), Block::SculkSensor);
    w.set_block(BlockPos::new(-3, 52, 1), Block::CalibratedSculkSensor);
    w.set_block(BlockPos::new(9, 60, 0), Block::SculkSensor);
    assert_eq!(
        sculk_sensors_near(&w, &p),
        vec![BlockPos::new(-3, 52, 1), BlockPos::new(8, 60, -8)]
    );
    assert_eq!(vibration_frequency(PotentSulfurState::Erupting), 10);
    assert_eq!(vibration_frequency(PotentSulfurState::Dormant), 11);
}

#[test]
fn countdown_saves_and_loads() {
    for c in [-1, 0, 5, 120] {
        let mut e = PotentSulfurBlockEntity::new(BlockPos::new(0, 0, 0));
        e.waiting_countdown = c;
        let loaded = PotentSulfurBlockEntity::from_saved(BlockPos::new(0, 0, 0), e.saved_countdown());
        assert_eq!(loaded.waiting_countdown, c);
    }
}

#[test]
fn whole_geyser_tick_plans_counts_down_and_launches() {
    let (w, pos) = geyser(Block::MagmaBlock, 2);
    let mut e = PotentSulfurBlockEntity::new(pos);
    let (plan, flip, launch) = e.tick(&w, PotentSulfurState::Erupting, 60, 5, 0);
    assert_eq!(
        plan,
        GeyserPlan {
            bubbles: true,
            gas_cloud: true,
            geyser_particles: true,
            nausea: false,
            countdown: true,
            launch: true,
        }
    );
    assert_eq!(flip, None);
    assert_eq!(launch, Some(12));
    let (_, flip, _) = e.tick(&w, PotentSulfurState::Erupting, 80, 5, 0);
    assert_eq!(flip, Some(PotentSulfurState::Dormant));
    let (plan, flip, launch) = e.tick(&w, PotentSulfurState::Dry, 80, 5, 0);
    assert!(!plan.bubbles && !plan.countdown);
    assert_eq!((flip, launch), (None, None));
}

#[test]
fn geyser_tick_does_nothing_once_the_block_is_gone() {
    let mut w = BlockWorld::new();
    let pos = BlockPos::new(0, 60, 0);
    w.set_block(BlockPos::new(0, 61, 0), Block::Water);
    let mut e = PotentSulfurBlockEntity::new(pos);
    let (plan, flip, launch) = e.tick(&w, PotentSulfurState::Wet, 0, 0, 0);
    assert!(!plan.bubbles && !plan.gas_cloud && !plan.nausea && !plan.countdown && !plan.launch);
    assert_eq!((flip, launch), (None, None));
    assert_eq!(e.waiting_countdown, -1);
}
