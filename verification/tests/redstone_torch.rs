use pumpkin::geometry::{BlockDirection, BlockPos, HorizontalFacing};
use pumpkin::redstone_torch::{
    should_be_lit_with_power_fn, torch_should_be_lit_from_power, RedstoneTorchBlock, TorchProps,
};
use pumpkin::world::Block;

fn lit() -> TorchProps {
    TorchProps { lit: true, facing: HorizontalFacing::North }
}

#[test]
fn test_torch_inversion_logic() {
    assert!(torch_should_be_lit_from_power(0), "Torch must be lit when attached block has power 0");
    for p in 1..=15 {
        assert!(
            !torch_should_be_lit_from_power(p),
            "Torch must unpower when attached block has power {p}"
        );
    }

    let pos = BlockPos::new(0, 64, 0);
    assert!(
        should_be_lit_with_power_fn(&pos, BlockDirection::Down, |_, _| 0),
        "Standing torch on unpowered block must be lit"
    );
    assert!(
        !should_be_lit_with_power_fn(&pos, BlockDirection::Down, |_, _| 15),
        "Standing torch on strongly/weakly powered block must turn off"
    );
}

#[test]
fn test_standing_torch_strong_power_upwards_only() {
    let t = Block::RedstoneTorch;
    assert_eq!(
        RedstoneTorchBlock::torch_strong_power(t, lit(), BlockDirection::Down),
        15,
        "Standing torch must strongly power the block above with power 15"
    );
    assert_eq!(
        RedstoneTorchBlock::torch_strong_power(t, lit(), BlockDirection::Up),
        0,
        "Torch must not strongly power block below"
    );
    assert_eq!(
        RedstoneTorchBlock::torch_strong_power(t, lit(), BlockDirection::North),
        0,
        "Torch must not strongly power horizontal neighbors"
    );
    assert_eq!(RedstoneTorchBlock::torch_strong_power(t, lit(), BlockDirection::South), 0);
    assert_eq!(RedstoneTorchBlock::torch_strong_power(t, lit(), BlockDirection::East), 0);
    assert_eq!(RedstoneTorchBlock::torch_strong_power(t, lit(), BlockDirection::West), 0);

    let unlit = TorchProps { lit: false, facing: HorizontalFacing::North };
    assert_eq!(
        RedstoneTorchBlock::torch_strong_power(t, unlit, BlockDirection::Down),
        0,
        "Unlit torch must emit 0 strong power"
    );
}

#[test]
fn test_standing_torch_weak_power() {
    let t = Block::RedstoneTorch;
    assert_eq!(
        RedstoneTorchBlock::torch_weak_power(t, lit(), BlockDirection::Down),
        15,
        "Weak power above must be 15"
    );
    assert_eq!(RedstoneTorchBlock::torch_weak_power(t, lit(), BlockDirection::North), 15);
    assert_eq!(RedstoneTorchBlock::torch_weak_power(t, lit(), BlockDirection::South), 15);
    assert_eq!(RedstoneTorchBlock::torch_weak_power(t, lit(), BlockDirection::East), 15);
    assert_eq!(RedstoneTorchBlock::torch_weak_power(t, lit(), BlockDirection::West), 15);
    assert_eq!(
        RedstoneTorchBlock::torch_weak_power(t, lit(), BlockDirection::Up),
        0,
        "Torch must NOT emit weak power into the block below"
    );
}

#[test]
fn test_wall_torch_strong_power_upwards_only() {
    let t = Block::RedstoneWallTorch;
    assert_eq!(
        RedstoneTorchBlock::torch_strong_power(t, lit(), BlockDirection::Down),
        15,
        "Wall torch must strongly power the block above"
    );
    assert_eq!(RedstoneTorchBlock::torch_strong_power(t, lit(), BlockDirection::North), 0);
    assert_eq!(RedstoneTorchBlock::torch_strong_power(t, lit(), BlockDirection::South), 0);
}

#[test]
fn wall_torch_gives_no_weak_power_back_into_its_wall() {
    // A wall torch facing north hangs on the block to its south.
    let t = Block::RedstoneWallTorch;
    assert_eq!(RedstoneTorchBlock::torch_weak_power(t, lit(), BlockDirection::North), 0);
    assert_eq!(RedstoneTorchBlock::torch_weak_power(t, lit(), BlockDirection::South), 15);
}

#[test]
fn other_blocks_emit_no_torch_power() {
    assert_eq!(RedstoneTorchBlock::torch_weak_power(Block::Stone, lit(), BlockDirection::Down), 0);
    assert_eq!(RedstoneTorchBlock::torch_strong_power(Block::Stone, lit(), BlockDirection::Down), 0);
}
