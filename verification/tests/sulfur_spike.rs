use pumpkin::geometry::{BlockDirection, BlockPos};
use pumpkin::sulfur_spike::{
    can_place_spike_on, flip_dir, get_len_and_dir_from_tip, get_support_block_vertical_direction,
    modify_spike_thickness_to, update_column, SpikeProps, SulfurSpikeBlock,
};
use pumpkin::world::{Block, BlockWorld, SpikeThickness, VerticalDirection};

fn spike(d: VerticalDirection, t: SpikeThickness) -> Block {
    Block::SulfurSpike(d, t)
}

fn hanging_column() -> BlockWorld {
    let mut w = BlockWorld::new();
    w.set_block(BlockPos::new(0, 70, 0), Block::Sulfur);
    for y in 67..70 {
        w.set_block(BlockPos::new(0, y, 0), spike(VerticalDirection::Down, SpikeThickness::Tip));
    }
    w
}

fn thickness(w: &BlockWorld, y: i32) -> Option<SpikeThickness> {
    match w.get_block(&BlockPos::new(0, y, 0)) {
        Block::SulfurSpike(_, t) => Some(t),
        _ => None,
    }
}

#[test]
fn support_rules() {
    let mut w = BlockWorld::new();
    w.set_block(BlockPos::new(0, 64, 0), Block::Stone);
    w.set_block(BlockPos::new(0, 66, 0), Block::Sulfur);
    let pos = BlockPos::new(0, 65, 0);
    assert!(can_place_spike_on(&w, &BlockPos::new(0, 64, 0), VerticalDirection::Up));
    assert!(!can_place_spike_on(&w, &BlockPos::new(9, 9, 9), VerticalDirection::Up));
    assert_eq!(get_support_block_vertical_direction(&w, &pos, Some(BlockDirection::Down)), Some(VerticalDirection::Down));
    assert_eq!(get_support_block_vertical_direction(&w, &pos, Some(BlockDirection::Up)), Some(VerticalDirection::Up));
    assert_eq!(get_support_block_vertical_direction(&w, &pos, None), Some(VerticalDirection::Up));
    let lonely = BlockPos::new(20, 20, 20);
    assert_eq!(get_support_block_vertical_direction(&w, &lonely, None), None);
    assert!(!SulfurSpikeBlock::can_place_at(&w, &lonely, None));
    // a spike supports another one only pointing the other way
    w.set_block(BlockPos::new(3, 64, 3), spike(VerticalDirection::Down, SpikeThickness::Tip));
    assert!(can_place_spike_on(&w, &BlockPos::new(3, 64, 3), VerticalDirection::Up));
    assert!(!can_place_spike_on(&w, &BlockPos::new(3, 64, 3), VerticalDirection::Down));
    assert_eq!(flip_dir(VerticalDirection::Up), VerticalDirection::Down);
}

#[test]
fn placing_points_away_from_support() {
    let mut w = BlockWorld::new();
    w.set_block(BlockPos::new(0, 66, 0), Block::Sulfur);
    let pos = BlockPos::new(0, 65, 0);
    assert_eq!(
        SulfurSpikeBlock::on_place(&w, &pos, BlockDirection::Down, true),
        Some(SpikeProps { direction: VerticalDirection::Up, thickness: SpikeThickness::Tip, waterlogged: true })
    );
    assert_eq!(SulfurSpikeBlock::on_place(&BlockWorld::new(), &pos, BlockDirection::Down, false), None);
}

#[test]
fn column_length_and_shape() {
    let mut w = hanging_column();
    let tip = BlockPos::new(0, 67, 0);
    assert_eq!(get_len_and_dir_from_tip(&w, &tip, VerticalDirection::Down), (3, VerticalDirection::Down));
    update_column(&mut w, 3, &tip, VerticalDirection::Down);
    assert_eq!(thickness(&w, 67), Some(SpikeThickness::Tip));
    assert_eq!(thickness(&w, 68), Some(SpikeThickness::Frustum));
    assert_eq!(thickness(&w, 69), Some(SpikeThickness::Base));
    assert_eq!(w.get_block(&BlockPos::new(0, 70, 0)), Block::Sulfur);
}

#[test]
fn placed_and_broken_reshape() {
    let mut w = hanging_column();
    w.set_block(BlockPos::new(0, 66, 0), spike(VerticalDirection::Down, SpikeThickness::Tip));
    let len = SulfurSpikeBlock::placed(&mut w, &BlockPos::new(0, 66, 0), VerticalDirection::Down);
    assert_eq!(len, 4);
    assert_eq!(thickness(&w, 66), Some(SpikeThickness::Tip));
    assert_eq!(thickness(&w, 67), Some(SpikeThickness::Frustum));
    assert_eq!(thickness(&w, 68), Some(SpikeThickness::Middle));
    assert_eq!(thickness(&w, 69), Some(SpikeThickness::Base));
    w.set_block(BlockPos::new(0, 66, 0), Block::Air);
    let (tip, len) = SulfurSpikeBlock::broken(&mut w, &BlockPos::new(0, 66, 0), VerticalDirection::Down);
    assert_eq!((tip, len), (BlockPos::new(0, 67, 0), 3));
    assert_eq!(thickness(&w, 67), Some(SpikeThickness::Tip));
    assert_eq!(thickness(&w, 69), Some(SpikeThickness::Base));
}

#[test]
fn facing_tips_merge() {
    let mut w = hanging_column();
    w.set_block(BlockPos::new(0, 66, 0), spike(VerticalDirection::Up, SpikeThickness::Tip));
    let tip = BlockPos::new(0, 67, 0);
    update_column(&mut w, 3, &tip, VerticalDirection::Down);
    assert_eq!(thickness(&w, 67), Some(SpikeThickness::TipMerge));
    assert_eq!(thickness(&w, 66), Some(SpikeThickness::TipMerge));
    // a merged tip whose partner is gone becomes a plain tip
    w.set_block(BlockPos::new(0, 66, 0), Block::Stone);
    let props = SpikeProps { direction: VerticalDirection::Down, thickness: SpikeThickness::TipMerge, waterlogged: false };
    assert_eq!(
        SulfurSpikeBlock::get_state_for_neighbor_update(&w, &tip, props),
        Some(SpikeProps { thickness: SpikeThickness::Tip, ..props })
    );
    assert_eq!(SulfurSpikeBlock::get_state_for_neighbor_update(&BlockWorld::new(), &tip, props), None);
}

#[test]
fn random_tick_grows_short_hanging_spike() {
    let mut w = BlockWorld::new();
    w.set_block(BlockPos::new(0, 70, 0), Block::Sulfur);
    let pos = BlockPos::new(0, 69, 0);
    w.set_block(pos, spike(VerticalDirection::Down, SpikeThickness::Tip));
    assert!(SulfurSpikeBlock::random_tick(&mut w, &pos));
    assert_eq!(thickness(&w, 68), Some(SpikeThickness::Tip));
    assert_eq!(thickness(&w, 69), Some(SpikeThickness::Frustum));
    // now two long: no more growth from the old tip
    assert!(!SulfurSpikeBlock::random_tick(&mut w, &pos));
    assert!(!SulfurSpikeBlock::random_tick(&mut w, &BlockPos::new(0, 68, 0)));
    assert!(!SulfurSpikeBlock::is_pathfindable());
}

#[test]
fn thickness_only_changes_spikes() {
    let mut w = BlockWorld::new();
    let p = BlockPos::new(1, 1, 1);
    w.set_block(p, Block::Stone);
    modify_spike_thickness_to(&mut w, &p, SpikeThickness::Base);
    assert_eq!(w.get_block(&p), Block::Stone);
    w.set_block(p, spike(VerticalDirection::Up, SpikeThickness::Tip));
    modify_spike_thickness_to(&mut w, &p, SpikeThickness::Base);
    assert_eq!(w.get_block(&p), spike(VerticalDirection::Up, SpikeThickness::Base));
}

#[test]
fn random_tick_merges_with_spike_beneath() {
    let mut w = BlockWorld::new();
    w.set_block(BlockPos::new(0, 70, 0), Block::Sulfur);
    let pos = BlockPos::new(0, 69, 0);
    w.set_block(pos, spike(VerticalDirection::Down, SpikeThickness::Tip));
    w.set_block(BlockPos::new(0, 67, 0), spike(VerticalDirection::Up, SpikeThickness::Tip));
    assert!(SulfurSpikeBlock::random_tick(&mut w, &pos));
    assert_eq!(thickness(&w, 68), Some(SpikeThickness::TipMerge));
    assert_eq!(thickness(&w, 67), Some(SpikeThickness::TipMerge));
    assert_eq!(thickness(&w, 69), Some(SpikeThickness::Frustum));
}

#[test]
fn random_tick_needs_sulfur_right_above() {
    let mut w = BlockWorld::new();
    w.set_block(BlockPos::new(0, 70, 0), Block::Stone);
    let pos = BlockPos::new(0, 69, 0);
    w.set_block(pos, spike(VerticalDirection::Down, SpikeThickness::Tip));
    assert!(!SulfurSpikeBlock::random_tick(&mut w, &pos));
    assert_eq!(thickness(&w, 68), None);
}
