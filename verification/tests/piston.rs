use pumpkin::geometry::{BlockDirection, BlockPos};
use pumpkin::piston::{PistonBlock, PistonHandler};
use pumpkin::world::{Block, BlockState, BlockWorld};

#[test]
fn test_piston_is_movable_rules() {
    let east = BlockDirection::East;

    assert!(PistonBlock::is_movable(Block::Stone, Block::Stone.default_state(), east, false, east));
    assert!(PistonBlock::is_movable(Block::Dirt, Block::Dirt.default_state(), east, false, east));
    assert!(PistonBlock::is_movable(Block::Glass, Block::Glass.default_state(), east, false, east));
    assert!(PistonBlock::is_movable(Block::Air, Block::Air.default_state(), east, false, east));

    assert!(!PistonBlock::is_movable(
        Block::Obsidian,
        Block::Obsidian.default_state(),
        east,
        false,
        east
    ));
    assert!(!PistonBlock::is_movable(
        Block::CryingObsidian,
        Block::CryingObsidian.default_state(),
        east,
        false,
        east
    ));
    assert!(!PistonBlock::is_movable(
        Block::RespawnAnchor,
        Block::RespawnAnchor.default_state(),
        east,
        false,
        east
    ));
    assert!(!PistonBlock::is_movable(
        Block::ReinforcedDeepslate,
        Block::ReinforcedDeepslate.default_state(),
        east,
        false,
        east
    ));

    assert!(!PistonBlock::is_movable(
        Block::Bedrock,
        Block::Bedrock.default_state(),
        east,
        false,
        east
    ));

    let ext_state = BlockState { extended: true, ..Block::Piston.default_state() };
    assert!(!PistonBlock::is_movable(Block::Piston, ext_state, east, false, east));
    let retracted_state = BlockState { extended: false, ..Block::Piston.default_state() };
    assert!(PistonBlock::is_movable(Block::Piston, retracted_state, east, false, east));

    assert!(PistonBlock::is_movable(
        Block::RedstoneTorch,
        Block::RedstoneTorch.default_state(),
        east,
        true,
        east
    ));
    assert!(!PistonBlock::is_movable(
        Block::RedstoneTorch,
        Block::RedstoneTorch.default_state(),
        east,
        false,
        east
    ));
}

#[test]
fn test_piston_push_limit_12_blocks_success() {
    let mut world = BlockWorld::new();
    let piston_pos = BlockPos::new(0, 64, 0);
    let push_dir = BlockDirection::East;
    for x in 1..=12 {
        world.set_block(BlockPos::new(x, 64, 0), Block::Stone);
    }
    world.set_block(BlockPos::new(13, 64, 0), Block::Air);

    let mut handler = PistonHandler::new(&world, piston_pos, push_dir, true);
    assert!(handler.calculate_push(), "Piston must successfully push a line of 12 blocks");
    assert_eq!(handler.moved_blocks.len(), 12, "Moved blocks count must be exactly 12");
    assert!(handler.broken_blocks.is_empty());
}

#[test]
fn test_piston_push_limit_13_blocks_rejected() {
    let mut world = BlockWorld::new();
    let piston_pos = BlockPos::new(0, 64, 0);
    let push_dir = BlockDirection::East;
    for x in 1..=13 {
        world.set_block(BlockPos::new(x, 64, 0), Block::Stone);
    }
    world.set_block(BlockPos::new(14, 64, 0), Block::Air);

    let mut handler = PistonHandler::new(&world, piston_pos, push_dir, true);
    assert!(!handler.calculate_push(), "Piston must refuse to push 13 or more blocks");
}

#[test]
fn test_piston_push_line_halted_by_immovable_obsidian() {
    let mut world = BlockWorld::new();
    let piston_pos = BlockPos::new(0, 64, 0);
    let push_dir = BlockDirection::East;
    world.set_block(BlockPos::new(1, 64, 0), Block::Stone);
    world.set_block(BlockPos::new(2, 64, 0), Block::Stone);
    world.set_block(BlockPos::new(3, 64, 0), Block::Obsidian);
    world.set_block(BlockPos::new(4, 64, 0), Block::Air);

    let mut handler = PistonHandler::new(&world, piston_pos, push_dir, true);
    assert!(!handler.calculate_push(), "Piston must refuse to push when line contains Obsidian");
}

#[test]
fn test_piston_push_line_halted_by_bedrock() {
    let mut world = BlockWorld::new();
    let piston_pos = BlockPos::new(0, 64, 0);
    let push_dir = BlockDirection::East;
    world.set_block(BlockPos::new(1, 64, 0), Block::Bedrock);

    let mut handler = PistonHandler::new(&world, piston_pos, push_dir, true);
    assert!(!handler.calculate_push(), "Piston must refuse to push Bedrock");
}

#[test]
fn test_piston_fragile_torch_destroyed_directly_in_front() {
    let mut world = BlockWorld::new();
    let piston_pos = BlockPos::new(0, 64, 0);
    let push_dir = BlockDirection::East;
    world.set_block(BlockPos::new(1, 64, 0), Block::RedstoneTorch);

    let mut handler = PistonHandler::new(&world, piston_pos, push_dir, true);
    assert!(
        handler.calculate_push(),
        "Piston must push and break fragile block directly in front"
    );
    assert!(handler.moved_blocks.is_empty());
    assert_eq!(
        handler.broken_blocks,
        vec![BlockPos::new(1, 64, 0)],
        "Torch must be in broken_blocks"
    );
}

#[test]
fn test_piston_12_blocks_push_and_break_13th_fragile_torch() {
    let mut world = BlockWorld::new();
    let piston_pos = BlockPos::new(0, 64, 0);
    let push_dir = BlockDirection::East;
    for x in 1..=12 {
        world.set_block(BlockPos::new(x, 64, 0), Block::Stone);
    }
    world.set_block(BlockPos::new(13, 64, 0), Block::RedstoneTorch);

    let mut handler = PistonHandler::new(&world, piston_pos, push_dir, true);
    assert!(
        handler.calculate_push(),
        "Piston pushing 12 blocks into fragile block must succeed by breaking fragile block"
    );
    assert_eq!(handler.moved_blocks.len(), 12, "All 12 stone blocks must be moved");
    assert_eq!(
        handler.broken_blocks,
        vec![BlockPos::new(13, 64, 0)],
        "Fragile torch must be broken without consuming push limit"
    );
}

#[test]
fn test_sticky_piston_retraction_pulls_block_north() {
    let mut world = BlockWorld::new();
    let piston_pos = BlockPos::new(0, 64, 0);
    let dir = BlockDirection::North;
    let block_pos = piston_pos.offset_dir(dir, 2);
    world.set_block(block_pos, Block::Stone);

    let mut handler = PistonHandler::new(&world, piston_pos, dir, false);
    assert!(
        handler.calculate_push(),
        "Sticky piston retracting North must successfully pull block"
    );
    assert_eq!(
        handler.moved_blocks,
        vec![block_pos],
        "North sticky piston must pull stone block from distance 2"
    );
    assert!(handler.broken_blocks.is_empty());
}

#[test]
fn test_sticky_piston_retraction_all_directions() {
    for dir in BlockDirection::all() {
        let mut world = BlockWorld::new();
        let piston_pos = BlockPos::new(10, 64, 10);
        let pull_pos = piston_pos.offset_dir(dir, 2);
        world.set_block(pull_pos, Block::Stone);

        let mut handler = PistonHandler::new(&world, piston_pos, dir, false);
        assert!(
            handler.calculate_push(),
            "Sticky piston retracting in direction {dir:?} must calculate push"
        );
        assert_eq!(
            handler.moved_blocks,
            vec![pull_pos],
            "Retracted block in direction {dir:?} must be moved"
        );
        assert!(
            PistonBlock::is_movable(
                Block::Stone,
                Block::Stone.default_state(),
                dir.opposite(),
                false,
                dir
            ),
            "Stone must be movable in pull direction {dir:?}.opposite()"
        );
    }
}

#[test]
fn test_sticky_piston_retraction_leaves_immovable() {
    let mut world = BlockWorld::new();
    let piston_pos = BlockPos::new(0, 64, 0);
    let dir = BlockDirection::North;
    let obsidian_pos = piston_pos.offset_dir(dir, 2);
    world.set_block(obsidian_pos, Block::Obsidian);

    let mut handler = PistonHandler::new(&world, piston_pos, dir, false);
    assert!(!handler.calculate_push(), "Sticky piston must not pull immovable obsidian block");
    assert!(handler.moved_blocks.is_empty());
}

#[test]
fn test_sticky_piston_retraction_leaves_fragile() {
    let mut world = BlockWorld::new();
    let piston_pos = BlockPos::new(0, 64, 0);
    let dir = BlockDirection::North;
    let torch_pos = piston_pos.offset_dir(dir, 2);
    world.set_block(torch_pos, Block::RedstoneTorch);

    let mut handler = PistonHandler::new(&world, piston_pos, dir, false);
    assert!(
        !handler.calculate_push(),
        "Sticky piston must not pull fragile block during retraction"
    );
    assert!(handler.moved_blocks.is_empty());
}

#[test]
fn test_slime_and_honey_stickiness_rules() {
    assert!(PistonHandler::is_block_sticky(Block::SlimeBlock));
    assert!(PistonHandler::is_block_sticky(Block::HoneyBlock));
    assert!(!PistonHandler::is_block_sticky(Block::Stone));

    assert!(!PistonHandler::is_adjacent_block_stuck(Block::SlimeBlock, Block::HoneyBlock));
    assert!(!PistonHandler::is_adjacent_block_stuck(Block::HoneyBlock, Block::SlimeBlock));

    assert!(PistonHandler::is_adjacent_block_stuck(Block::SlimeBlock, Block::Stone));
    assert!(PistonHandler::is_adjacent_block_stuck(Block::HoneyBlock, Block::Stone));
}

#[test]
fn test_north_direction_index_parity() {
    assert_eq!(
        BlockDirection::North.to_index(),
        2,
        "North direction index must be 2, confirming why `if data == 2` broke all North sticky pistons"
    );
}

#[test]
fn sticky_line_of_slime_drags_neighbour() {
    // A slime block in front of the piston drags the stone beside it.
    let mut world = BlockWorld::new();
    let piston_pos = BlockPos::new(0, 64, 0);
    world.set_block(BlockPos::new(1, 64, 0), Block::SlimeBlock);
    world.set_block(BlockPos::new(1, 65, 0), Block::Stone);
    let mut handler = PistonHandler::new(&world, piston_pos, BlockDirection::East, true);
    assert!(handler.calculate_push());
    assert_eq!(handler.moved_blocks.len(), 2);
    assert!(handler.moved_blocks.contains(&BlockPos::new(1, 65, 0)));
}

#[test]
fn empty_world_push_moves_nothing() {
    let world = BlockWorld::new();
    let mut handler = PistonHandler::new(&world, BlockPos::new(0, 64, 0), BlockDirection::Up, true);
    assert!(handler.calculate_push());
    assert!(handler.moved_blocks.is_empty());
    assert!(handler.broken_blocks.is_empty());
}

#[test]
fn slime_drag_lists_the_neighbour_after_the_slime() {
    let mut world = BlockWorld::new();
    world.set_block(BlockPos::new(1, 64, 0), Block::SlimeBlock);
    world.set_block(BlockPos::new(1, 65, 0), Block::Stone);
    let mut handler =
        PistonHandler::new(&world, BlockPos::new(0, 64, 0), BlockDirection::East, true);
    assert!(handler.calculate_push());
    assert_eq!(
        handler.moved_blocks,
        vec![BlockPos::new(1, 64, 0), BlockPos::new(1, 65, 0)]
    );
    assert!(handler.broken_blocks.is_empty());
}

#[test]
fn honey_beside_slime_stays_behind() {
    let mut world = BlockWorld::new();
    world.set_block(BlockPos::new(1, 64, 0), Block::SlimeBlock);
    world.set_block(BlockPos::new(1, 65, 0), Block::HoneyBlock);
    let mut handler =
        PistonHandler::new(&world, BlockPos::new(0, 64, 0), BlockDirection::East, true);
    assert!(handler.calculate_push());
    assert_eq!(handler.moved_blocks, vec![BlockPos::new(1, 64, 0)]);
}

#[test]
fn dragged_block_blocked_by_obsidian_stops_the_push() {
    let mut world = BlockWorld::new();
    world.set_block(BlockPos::new(1, 64, 0), Block::SlimeBlock);
    world.set_block(BlockPos::new(1, 65, 0), Block::Stone);
    world.set_block(BlockPos::new(2, 65, 0), Block::Obsidian);
    let mut handler =
        PistonHandler::new(&world, BlockPos::new(0, 64, 0), BlockDirection::East, true);
    assert!(!handler.calculate_push());
}

#[test]
fn slime_drag_past_the_limit_stops_the_push() {
    // Slime and eleven stones fill the line to the limit; the stone stuck to
    // the slime's side would be the thirteenth block.
    let mut world = BlockWorld::new();
    world.set_block(BlockPos::new(1, 64, 0), Block::SlimeBlock);
    for x in 2..13 {
        world.set_block(BlockPos::new(x, 64, 0), Block::Stone);
    }
    let mut handler =
        PistonHandler::new(&world, BlockPos::new(0, 64, 0), BlockDirection::East, true);
    assert!(handler.calculate_push());
    assert_eq!(handler.moved_blocks.len(), 12);

    world.set_block(BlockPos::new(1, 65, 0), Block::Stone);
    let mut handler =
        PistonHandler::new(&world, BlockPos::new(0, 64, 0), BlockDirection::East, true);
    assert!(!handler.calculate_push());
    assert!(handler.moved_blocks.len() <= 12);
}

#[test]
fn retracting_sticky_piston_pulls_slime_and_what_sticks_to_it() {
    let mut world = BlockWorld::new();
    world.set_block(BlockPos::new(2, 64, 0), Block::SlimeBlock);
    world.set_block(BlockPos::new(2, 65, 0), Block::Stone);
    let mut handler =
        PistonHandler::new(&world, BlockPos::new(0, 64, 0), BlockDirection::East, false);
    assert!(handler.calculate_push());
    assert_eq!(
        handler.moved_blocks,
        vec![BlockPos::new(2, 64, 0), BlockPos::new(2, 65, 0)]
    );
    assert!(handler.broken_blocks.is_empty());
}
