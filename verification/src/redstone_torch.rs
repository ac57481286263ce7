use vstd::prelude::*;

use crate::geometry::{
    has_neighbours,
    bounded, face_is_horizontal, spec_facing_direction, spec_offset, spec_opposite, BlockDirection,
    BlockPos, HorizontalFacing, COORD_LIMIT,
};
use crate::world::{face_in, Block, BlockWorld};

verus! {

/// The properties of a redstone torch state.  `facing` only matters for the
/// wall torch: it points away from the wall the torch hangs on.
#[derive(Clone, Copy, Debug, PartialEq, Eq, Structural)]
pub struct TorchProps {
    pub lit: bool,
    pub facing: HorizontalFacing,
}

/// What placing a torch results in.
#[derive(Clone, Copy, Debug, PartialEq, Eq, Structural)]
pub enum TorchPlacement {
    /// A standing torch on the block below.
    Standing,
    /// A wall torch facing the given way.
    Wall(HorizontalFacing),
    /// Nothing can hold the torch.
    Air,
}

/// What a neighbour update does to a torch.
#[derive(Clone, Copy, Debug, PartialEq, Eq, Structural)]
pub enum NeighborUpdate {
    Keep,
    Remove,
}

pub struct RedstoneTorchBlock;

pub open spec fn spec_weak_power(block: Block, props: TorchProps, direction: BlockDirection) -> u8 {
    if block == Block::RedstoneWallTorch {
        if props.lit && direction != spec_facing_direction(props.facing) {
            15
        } else {
            0
        }
    } else if block == Block::RedstoneTorch {
        if props.lit && direction != BlockDirection::Up {
            15
        } else {
            0
        }
    } else {
        0
    }
}

pub open spec fn spec_strong_power(block: Block, props: TorchProps, direction: BlockDirection) -> u8 {
    if direction == BlockDirection::Down && (block == Block::RedstoneWallTorch || block
        == Block::RedstoneTorch) && props.lit {
        15
    } else {
        0
    }
}

/// The torch at `pos` can hang on the block towards `facing`.
pub open spec fn spec_can_hang(world: BlockWorld, pos: BlockPos, facing: BlockDirection) -> bool {
    face_in(world.get_spec(spec_offset(pos, facing, 1)).sturdy, spec_opposite(facing))
}

/// The block below `pos` can hold a standing torch.
pub open spec fn spec_supported_below(world: BlockWorld, pos: BlockPos) -> bool {
    face_in(world.get_spec(spec_offset(pos, BlockDirection::Down, 1)).sturdy, BlockDirection::Up)
}

/// The order of directions tried when placing: the clicked face first when
/// the torch does not replace a block, then the others in the player's order.
pub open spec fn placement_order(order: Seq<BlockDirection>, face: BlockDirection, replacing: bool) -> Seq<
    BlockDirection,
> {
    if replacing {
        order
    } else {
        let i = match order.index_of_first(face) {
            Some(i) => i,
            None => 0,
        };
        seq![face] + order.take(i) + order.skip(i + 1)
    }
}

/// The first wall the torch can hang on, trying `order` from index `k`.
pub open spec fn first_wall(world: BlockWorld, pos: BlockPos, order: Seq<BlockDirection>, k: int) -> Option<
    BlockDirection,
>
    decreases order.len() - k,
{
    if k < 0 || k >= order.len() {
        None
    } else if face_is_horizontal(order[k]) && spec_can_hang(world, pos, order[k]) {
        Some(order[k])
    } else {
        first_wall(world, pos, order, k + 1)
    }
}

impl RedstoneTorchBlock {
    /// The weak power a torch gives to the neighbour that asks from `direction`.
    pub fn torch_weak_power(block: Block, props: TorchProps, direction: BlockDirection) -> (r: u8)
        ensures
            r == spec_weak_power(block, props, direction),
    {
        if block == Block::RedstoneWallTorch {
            if props.lit && direction != props.facing.to_block_direction() {
                return 15;
            }
        } else if block == Block::RedstoneTorch {
            if props.lit && direction != BlockDirection::Up {
                return 15;
            }
        }
        0
    }

    /// The strong power a torch gives: only to the block above it.
    pub fn torch_strong_power(block: Block, props: TorchProps, direction: BlockDirection) -> (r: u8)
        ensures
            r == spec_strong_power(block, props, direction),
    {
        if direction == BlockDirection::Down {
            if block == Block::RedstoneWallTorch {
                if props.lit {
                    return 15;
                }
            } else if block == Block::RedstoneTorch {
                if props.lit {
                    return 15;
                }
            }
        }
        0
    }

    /// Whether a torch can stand or hang at `pos`.
    pub fn can_place_at(world: &BlockWorld, pos: &BlockPos) -> (r: bool)
        requires
            bounded(*pos, COORD_LIMIT as int),
        ensures
            r == (spec_supported_below(*world, *pos) || exists|d: BlockDirection|
                face_is_horizontal(d) && #[trigger] spec_can_hang(*world, *pos, d)),
    {
        let support_block = world.get_block_state(&pos.down());
        if support_block.is_center_solid(BlockDirection::Up) {
            return true;
        }
        let dirs = [
            HorizontalFacing::North,
            HorizontalFacing::South,
            HorizontalFacing::West,
            HorizontalFacing::East,
        ];
        let mut i: usize = 0;
        while i < 4
            invariant
                i <= 4,
                bounded(*pos, COORD_LIMIT as int),
                dirs@ == seq![
                    HorizontalFacing::North,
                    HorizontalFacing::South,
                    HorizontalFacing::West,
                    HorizontalFacing::East,
                ],
                forall|t: int|
                    0 <= t < i ==> !spec_can_hang(*world, *pos, spec_facing_direction(dirs@[t])),
            decreases 4 - i,
        {
            if can_hang(world, pos, dirs[i].to_block_direction()) {
                return true;
            }
            i += 1;
        }
        proof {
            assert forall|d: BlockDirection| face_is_horizontal(d) implies !#[trigger] spec_can_hang(
                *world,
                *pos,
                d,
            ) by {
                match d {
                    BlockDirection::North => assert(spec_facing_direction(dirs@[0]) == d),
                    BlockDirection::South => assert(spec_facing_direction(dirs@[1]) == d),
                    BlockDirection::West => assert(spec_facing_direction(dirs@[2]) == d),
                    BlockDirection::East => assert(spec_facing_direction(dirs@[3]) == d),
                    _ => {},
                }
            }
        }
        false
    }

    /// The state a torch is placed in: against the clicked wall if it can
    /// hang there, else on the first wall in the player's facing order, else
    /// standing on the block below, else nothing.
    pub fn on_place(
        world: &BlockWorld,
        pos: &BlockPos,
        direction: BlockDirection,
        facing_order: [BlockDirection; 6],
        replacing: bool,
    ) -> (r: TorchPlacement)
        requires
            bounded(*pos, COORD_LIMIT as int),
            facing_order@.contains(direction),
        ensures
            ({
                let order = placement_order(facing_order@, direction, replacing);
                let supported = spec_supported_below(*world, *pos);
                r == if direction == BlockDirection::Down && supported {
                    TorchPlacement::Standing
                } else if replacing && facing_order@[0] == BlockDirection::Down && supported {
                    TorchPlacement::Standing
                } else if let Some(d) = first_wall(*world, *pos, order, 0) {
                    TorchPlacement::Wall(horizontal_of(spec_opposite(d)))
                } else if supported {
                    TorchPlacement::Standing
                } else {
                    TorchPlacement::Air
                }
            }),
    {
        if direction == BlockDirection::Down {
            let support_block = world.get_block_state(&pos.down());
            if support_block.is_center_solid(BlockDirection::Up) {
                return TorchPlacement::Standing;
            }
        }
        let mut directions = facing_order;
        let ghost order = placement_order(facing_order@, direction, replacing);
        if !replacing {
            let face = direction;
            let mut i: usize = 0;
            while i < 6 && directions[i] != face
                invariant
                    i <= 6,
                    directions@ == facing_order@,
                    forall|t: int| 0 <= t < i ==> directions@[t] != face,
                decreases 6 - i,
            {
                i += 1;
            }
            proof {
                if i == 6 {
                    let w = choose|w: int| 0 <= w < 6 && facing_order@[w] == face;
                    assert(directions@[w] == face);
                }
                facing_order@.index_of_first_ensures(face);
                assert(facing_order@.index_of_first(face) == Some(i as int));
            }
            if i > 0 {
                let ghost before = directions@;
                let mut t: usize = i;
                while t > 0
                    invariant
                        0 < i < 6,
                        t <= i,
                        forall|u: int| 0 <= u < t ==> directions@[u] == before[u],
                        forall|u: int| t < u <= i ==> directions@[u] == before[u - 1],
                        forall|u: int| i < u < 6 ==> directions@[u] == before[u],
                        directions@.len() == 6,
                        before.len() == 6,
                    decreases t,
                {
                    directions[t] = directions[t - 1];
                    t -= 1;
                }
                directions[0] = face;
                proof {
                    assert(directions@ =~= order);
                }
            } else {
                proof {
                    assert(directions@ =~= order);
                }
            }
        } else {
            if directions[0] == BlockDirection::Down {
                let support_block = world.get_block_state(&pos.down());
                if support_block.is_center_solid(BlockDirection::Up) {
                    return TorchPlacement::Standing;
                }
            }
        }
        let mut k: usize = 0;
        while k < 6
            invariant
                k <= 6,
                bounded(*pos, COORD_LIMIT as int),
                directions@ == order,
                order == placement_order(facing_order@, direction, replacing),
                order.len() == 6,
                !(direction == BlockDirection::Down && spec_supported_below(*world, *pos)),
                !(replacing && facing_order@[0] == BlockDirection::Down && spec_supported_below(
                    *world,
                    *pos,
                )),
                first_wall(*world, *pos, order, 0) == first_wall(*world, *pos, order, k as int),
            decreases 6 - k,
        {
            let dir = directions[k];
            if dir != BlockDirection::Up && dir != BlockDirection::Down && can_hang(world, pos, dir) {
                match dir.opposite().to_horizontal_facing() {
                    Some(facing) => {
                        proof {
                            assert(first_wall(*world, *pos, order, k as int) == Some(dir));
                            assert(horizontal_of(spec_facing_direction(facing)) == facing);
                        }
                        return TorchPlacement::Wall(facing);
                    },
                    None => {},
                }
            }
            k += 1;
        }
        let support_block = world.get_block_state(&pos.down());
        if support_block.is_center_solid(BlockDirection::Up) {
            TorchPlacement::Standing
        } else {
            TorchPlacement::Air
        }
    }

    /// A wall torch whose wall goes away, or a standing torch whose support
    /// below goes away, turns to air.
    pub fn get_state_for_neighbor_update(
        world: &BlockWorld,
        pos: &BlockPos,
        block: Block,
        props: TorchProps,
        direction: BlockDirection,
    ) -> (r: NeighborUpdate)
        requires
            bounded(*pos, COORD_LIMIT as int),
        ensures
            r == if block == Block::RedstoneWallTorch {
                let wall = spec_opposite(spec_facing_direction(props.facing));
                if wall == direction && !spec_can_hang(*world, *pos, wall) {
                    NeighborUpdate::Remove
                } else {
                    NeighborUpdate::Keep
                }
            } else if direction == BlockDirection::Down && !spec_supported_below(*world, *pos) {
                NeighborUpdate::Remove
            } else {
                NeighborUpdate::Keep
            },
    {
        if block == Block::RedstoneWallTorch {
            let wall = props.facing.to_block_direction().opposite();
            if wall == direction && !can_hang(world, pos, wall) {
                return NeighborUpdate::Remove;
            }
        } else if direction == BlockDirection::Down {
            let support_block = world.get_block_state(&pos.down());
            if !support_block.is_center_solid(BlockDirection::Up) {
                return NeighborUpdate::Remove;
            }
        }
        NeighborUpdate::Keep
    }

    /// A neighbour changed: a tick is scheduled when none is and the torch's
    /// lit state disagrees with the power on the block it is attached to.
    pub fn on_neighbor_update(tick_scheduled: bool, props: TorchProps, attached_power: u8) -> (r:
        bool)
        ensures
            r == (!tick_scheduled && props.lit != (attached_power == 0)),
    {
        if tick_scheduled {
            return false;
        }
        props.lit != torch_should_be_lit_from_power(attached_power)
    }

    /// The scheduled tick: the torch takes the lit state the power on its
    /// block calls for; `None` when that is the state it already has.
    pub fn on_scheduled_tick(props: TorchProps, attached_power: u8) -> (r: Option<TorchProps>)
        ensures
            r is None <==> props.lit == (attached_power == 0),
            r matches Some(p) ==> p == (TorchProps { lit: attached_power == 0, ..props }),
    {
        let should_be_lit_now = torch_should_be_lit_from_power(attached_power);
        if props.lit != should_be_lit_now {
            Some(TorchProps { lit: should_be_lit_now, facing: props.facing })
        } else {
            None
        }
    }

    pub fn emits_redstone_power() -> (r: bool)
        ensures
            r,
    {
        true
    }

    pub fn get_weak_redstone_power(block: Block, props: TorchProps, direction: BlockDirection) -> (r:
        u8)
        ensures
            r == spec_weak_power(block, props, direction),
    {
        Self::torch_weak_power(block, props, direction)
    }

    pub fn get_strong_redstone_power(block: Block, props: TorchProps, direction: BlockDirection) -> (r:
        u8)
        ensures
            r == spec_strong_power(block, props, direction),
    {
        Self::torch_strong_power(block, props, direction)
    }
}

pub open spec fn horizontal_of(d: BlockDirection) -> HorizontalFacing {
    match d {
        BlockDirection::South => HorizontalFacing::South,
        BlockDirection::West => HorizontalFacing::West,
        BlockDirection::East => HorizontalFacing::East,
        _ => HorizontalFacing::North,
    }
}

/// A torch is lit exactly when the block it is attached to has no power.
pub fn torch_should_be_lit_from_power(power: u8) -> (r: bool)
    ensures
        r == (power == 0),
{
    power == 0
}

/// Whether a torch at `pos` attached towards `face` should be lit, given a
/// way to read the power of the attached block.
pub fn should_be_lit_with_power_fn<F: FnOnce(&BlockPos, BlockDirection) -> u8>(
    pos: &BlockPos,
    face: BlockDirection,
    get_power: F,
) -> (r: bool)
    requires
        has_neighbours(*pos),
        call_requires(get_power, (&spec_offset(*pos, face, 1), face)),
    ensures
        exists|p: u8| call_ensures(get_power, (&spec_offset(*pos, face, 1), face), p) && r == (p == 0),
{
    let other_pos = pos.offset(face);
    let p = get_power(&other_pos, face);
    torch_should_be_lit_from_power(p)
}

fn can_hang(world: &BlockWorld, pos: &BlockPos, facing: BlockDirection) -> (r: bool)
    requires
        bounded(*pos, COORD_LIMIT as int),
    ensures
        r == spec_can_hang(*world, *pos, facing),
{
    world.get_block_state(&pos.offset(facing)).is_side_solid(facing.opposite())
}

/// A lit torch gives strong power only where it also gives weak power.
pub proof fn law_strong_within_weak(block: Block, props: TorchProps, direction: BlockDirection)
    ensures
        spec_strong_power(block, props, direction) <= spec_weak_power(block, props, direction),
{
}

/// A lit torch gives full power 15 to every side but one: a wall torch to all
/// but the direction it faces, a standing torch to all but up; that one side
/// gets nothing.  A block that is no torch gives no power.
pub proof fn law_lit_torch_powers_all_sides_but_one(
    block: Block,
    props: TorchProps,
    direction: BlockDirection,
)
    ensures
        props.lit && direction != spec_facing_direction(props.facing) ==> spec_weak_power(
            Block::RedstoneWallTorch,
            props,
            direction,
        ) == 15,
        spec_weak_power(Block::RedstoneWallTorch, props, spec_facing_direction(props.facing)) == 0,
        props.lit && direction != BlockDirection::Up ==> spec_weak_power(
            Block::RedstoneTorch,
            props,
            direction,
        ) == 15,
        spec_weak_power(Block::RedstoneTorch, props, BlockDirection::Up) == 0,
        block != Block::RedstoneWallTorch && block != Block::RedstoneTorch ==> spec_weak_power(
            block,
            props,
            direction,
        ) == 0 && spec_strong_power(block, props, direction) == 0,
        props.lit ==> spec_strong_power(Block::RedstoneWallTorch, props, BlockDirection::Down) == 15
            && spec_strong_power(Block::RedstoneTorch, props, BlockDirection::Down) == 15,
        direction != BlockDirection::Down ==> spec_strong_power(block, props, direction) == 0,
{
}

/// An unlit torch gives no power at all.
pub proof fn law_unlit_is_dark(block: Block, props: TorchProps, direction: BlockDirection)
    requires
        !props.lit,
    ensures
        spec_strong_power(block, props, direction) == 0,
        spec_weak_power(block, props, direction) == 0,
{
}

} // verus!
