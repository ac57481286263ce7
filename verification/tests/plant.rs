use pumpkin::blocks::Survival;
use pumpkin::geometry::BlockPos;
use pumpkin::plant::{
    plant_can_place_at, GrowthPlan, RedShrubBlock, SaplingBlock, SaplingStep, TreeFeature,
    TreeType,
};
use pumpkin::world::{Block, BlockWorld, SaplingKind};

fn sapling_world(kind: SaplingKind, cells: &[(i32, i32)]) -> BlockWorld {
    let mut w = BlockWorld::new();
    for &(x, z) in cells {
        w.set_block(BlockPos::new(x, 64, z), Block::Sapling(kind));
        w.set_block(BlockPos::new(x, 63, z), Block::Dirt);
    }
    w
}

#[test]
fn tree_types() {
    assert_eq!(SaplingBlock::get_tree_type(Block::Sapling(SaplingKind::PaleOak)), TreeType::DarkOak);
    assert_eq!(SaplingBlock::get_tree_type(Block::Sapling(SaplingKind::FloweringAzalea)), TreeType::Azalea);
    assert_eq!(SaplingBlock::get_tree_type(Block::Sapling(SaplingKind::MangrovePropagule)), TreeType::Mangrove);
    assert_eq!(SaplingBlock::get_tree_type(Block::Stone), TreeType::Custom);
}

#[test]
fn stage_then_grow() {
    assert_eq!(SaplingBlock::advance_tree(Some(0)), SaplingStep::SetStage(1));
    assert_eq!(SaplingBlock::advance_tree(Some(1)), SaplingStep::Grow);
    assert_eq!(SaplingBlock::advance_tree(None), SaplingStep::Grow);
    assert!(SaplingBlock::random_tick_roll(0));
    assert!(SaplingBlock::random_tick_roll(14));
    assert!(!SaplingBlock::random_tick_roll(15));
}

#[test]
fn two_by_two_corner_search() {
    let k = SaplingKind::DarkOak;
    let w = sapling_world(k, &[(0, 0), (1, 0), (0, 1), (1, 1)]);
    let b = Block::Sapling(k);
    assert_eq!(SaplingBlock::find_2x2_origin(&w, &BlockPos::new(0, 64, 0), b), Some(BlockPos::new(0, 64, 0)));
    assert_eq!(SaplingBlock::find_2x2_origin(&w, &BlockPos::new(1, 64, 1), b), Some(BlockPos::new(0, 64, 0)));
    assert_eq!(SaplingBlock::find_2x2_origin(&w, &BlockPos::new(1, 64, 0), b), Some(BlockPos::new(0, 64, 0)));
    let lone = sapling_world(k, &[(0, 0), (1, 0), (0, 1)]);
    assert_eq!(SaplingBlock::find_2x2_origin(&lone, &BlockPos::new(0, 64, 0), b), None);
}

#[test]
fn features_by_kind() {
    assert_eq!(SaplingBlock::choose_feature(SaplingKind::DarkOak, false, false, false), None);
    assert_eq!(SaplingBlock::choose_feature(SaplingKind::DarkOak, true, false, false), Some(TreeFeature::DarkOak));
    assert_eq!(SaplingBlock::choose_feature(SaplingKind::Spruce, true, true, false), Some(TreeFeature::MegaSpruce));
    assert_eq!(SaplingBlock::choose_feature(SaplingKind::Spruce, true, false, false), Some(TreeFeature::MegaPine));
    assert_eq!(SaplingBlock::choose_feature(SaplingKind::Spruce, false, true, false), Some(TreeFeature::Spruce));
    assert_eq!(SaplingBlock::choose_feature(SaplingKind::Jungle, true, false, false), Some(TreeFeature::MegaJungleTree));
    assert_eq!(SaplingBlock::choose_feature(SaplingKind::Oak, false, false, true), Some(TreeFeature::FancyOak));
    assert_eq!(SaplingBlock::choose_feature(SaplingKind::Cherry, true, false, false), Some(TreeFeature::Cherry));
}

#[test]
fn growth_plans() {
    let k = SaplingKind::Jungle;
    let w = sapling_world(k, &[(0, 0), (1, 0), (0, 1), (1, 1)]);
    let plan = SaplingBlock::plan_growth_with(&w, &BlockPos::new(1, 64, 1), k, false, false).unwrap();
    assert_eq!(plan, GrowthPlan { feature: TreeFeature::MegaJungleTree, origin: BlockPos::new(0, 64, 0), two_by_two: true });
    let oak = sapling_world(SaplingKind::Oak, &[(0, 0)]);
    let plan = SaplingBlock::plan_growth(&oak, &BlockPos::new(0, 64, 0), SaplingKind::Oak, false).unwrap();
    assert_eq!(plan, GrowthPlan { feature: TreeFeature::Oak, origin: BlockPos::new(0, 64, 0), two_by_two: false });
    let dark = sapling_world(SaplingKind::DarkOak, &[(0, 0)]);
    assert_eq!(SaplingBlock::plan_growth(&dark, &BlockPos::new(0, 64, 0), SaplingKind::DarkOak, false), None);
    let spruce = sapling_world(SaplingKind::Spruce, &[(5, 5), (6, 5), (5, 6), (6, 6)]);
    let f = SaplingBlock::plan_growth(&spruce, &BlockPos::new(5, 64, 5), SaplingKind::Spruce, false).unwrap().feature;
    assert!(f == TreeFeature::MegaSpruce || f == TreeFeature::MegaPine);
}

#[test]
fn clear_and_restore_saplings() {
    let k = SaplingKind::Spruce;
    let mut w = sapling_world(k, &[(0, 0), (1, 0), (0, 1), (1, 1)]);
    let plan = GrowthPlan { feature: TreeFeature::MegaPine, origin: BlockPos::new(0, 64, 0), two_by_two: true };
    SaplingBlock::clear_for_growth(&mut w, plan);
    for (x, z) in [(0, 0), (1, 0), (0, 1), (1, 1)] {
        assert_eq!(w.get_block(&BlockPos::new(x, 64, z)), Block::Air);
    }
    assert_eq!(w.get_block(&BlockPos::new(0, 63, 0)), Block::Dirt);
    SaplingBlock::restore_after_failure(&mut w, plan, k);
    for (x, z) in [(0, 0), (1, 0), (0, 1), (1, 1)] {
        assert_eq!(w.get_block(&BlockPos::new(x, 64, z)), Block::Sapling(k));
    }
}

#[test]
fn saplings_need_soil() {
    let mut w = BlockWorld::new();
    let p = BlockPos::new(0, 64, 0);
    assert!(!plant_can_place_at(&w, &p));
    assert_eq!(SaplingBlock::get_state_for_neighbor_update(&w, &p), Survival::Remove);
    w.set_block(BlockPos::new(0, 63, 0), Block::Farmland);
    assert!(SaplingBlock::can_place_at(&w, &p));
    assert_eq!(SaplingBlock::get_state_for_neighbor_update(&w, &p), Survival::Keep);
    assert!(SaplingBlock::is_valid_bonemeal_target());
}

#[test]
fn red_shrub_soil_and_spread() {
    assert!(RedShrubBlock::can_plant_on_top(Block::Netherrack));
    assert!(RedShrubBlock::can_plant_on_top(Block::GrassBlock));
    assert!(!RedShrubBlock::can_plant_on_top(Block::Stone));
    let mut w = BlockWorld::new();
    let p = BlockPos::new(0, 64, 0);
    w.set_block(p, Block::RedShrub);
    w.set_block(BlockPos::new(0, 63, 0), Block::CrimsonNylium);
    assert_eq!(RedShrubBlock::get_state_for_neighbor_update(&w, &p), Survival::Keep);
    let order = RedShrubBlock::neighbor_offsets();
    assert_eq!(RedShrubBlock::spread_target(&w, &p, &order), None);
    assert_eq!(RedShrubBlock::perform_bonemeal(&mut w, &p), None);
    w.set_block(BlockPos::new(1, 63, 1), Block::Netherrack);
    w.set_block(BlockPos::new(-1, 63, 0), Block::Dirt);
    assert_eq!(RedShrubBlock::spread_target(&w, &p, &order), Some(BlockPos::new(-1, 64, 0)));
    w.set_block(BlockPos::new(-1, 64, 0), Block::Stone);
    assert_eq!(RedShrubBlock::spread_target(&w, &p, &order), Some(BlockPos::new(1, 64, 1)));
    let t = RedShrubBlock::perform_bonemeal(&mut w, &p);
    assert_eq!(t, Some(BlockPos::new(1, 64, 1)));
    assert_eq!(w.get_block(&BlockPos::new(1, 64, 1)), Block::RedShrub);
}

#[test]
fn bonemeal_spreads_to_some_neighbour() {
    for _ in 0..20 {
        let mut w = BlockWorld::new();
        let p = BlockPos::new(0, 64, 0);
        for dx in -1..=1 {
            for dz in -1..=1 {
                w.set_block(BlockPos::new(dx, 63, dz), Block::Dirt);
            }
        }
        let t = RedShrubBlock::perform_bonemeal(&mut w, &p).unwrap();
        assert!((t.x - p.x).abs() <= 1 && (t.z - p.z).abs() <= 1 && t != p);
        assert_eq!(w.get_block(&t), Block::RedShrub);
    }
}
