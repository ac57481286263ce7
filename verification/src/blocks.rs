use vstd::prelude::*;

use crate::geometry::{
    bounded, spec_facing_direction, spec_offset, spec_opposite, BlockDirection, BlockPos,
    HorizontalFacing, COORD_LIMIT,
};
use crate::world::{face_in, spec_default_state, spec_is_air, Block, BlockWorld};

verus! {

/// What a neighbour update does to a block.
#[derive(Clone, Copy, Debug, PartialEq, Eq, Structural)]
pub enum Survival {
    Keep,
    /// The block loses its support and turns to air.
    Remove,
}

/// The horizontal facings in the order the game tries them.
pub open spec fn horizontal_order() -> Seq<HorizontalFacing> {
    seq![
        HorizontalFacing::North,
        HorizontalFacing::South,
        HorizontalFacing::West,
        HorizontalFacing::East,
    ]
}

fn horizontals() -> (r: [HorizontalFacing; 4])
    ensures
        r@ == horizontal_order(),
{
    [HorizontalFacing::North, HorizontalFacing::South, HorizontalFacing::West, HorizontalFacing::East]
}

// ---------------------------------------------------------------- carpets

/// Wool, moss and pale moss carpets: they need a non-air block below.
pub struct CarpetBlock;

pub struct MossCarpetBlock;

pub struct PaleMossCarpetBlock;

pub open spec fn spec_carpet_can_place_at(world: BlockWorld, pos: BlockPos) -> bool {
    !spec_is_air(world.get_spec(spec_offset(pos, BlockDirection::Down, 1)))
}

/// A carpet stays only on a non-air block.
pub fn carpet_can_place_at(world: &BlockWorld, pos: &BlockPos) -> (r: bool)
    requires
        bounded(*pos, COORD_LIMIT as int),
    ensures
        r == spec_carpet_can_place_at(*world, *pos),
{
    !world.get_block_state(&pos.down()).is_air()
}

impl CarpetBlock {
    pub fn can_place_at(world: &BlockWorld, pos: &BlockPos) -> (r: bool)
        requires
            bounded(*pos, COORD_LIMIT as int),
        ensures
            r == spec_carpet_can_place_at(*world, *pos),
    {
        carpet_can_place_at(world, pos)
    }

    pub fn get_state_for_neighbor_update(world: &BlockWorld, pos: &BlockPos) -> (r: Survival)
        requires
            bounded(*pos, COORD_LIMIT as int),
        ensures
            r == if spec_carpet_can_place_at(*world, *pos) {
                Survival::Keep
            } else {
                Survival::Remove
            },
    {
        if !carpet_can_place_at(world, pos) {
            return Survival::Remove;
        }
        Survival::Keep
    }
}

impl MossCarpetBlock {
    pub fn can_place_at(world: &BlockWorld, pos: &BlockPos) -> (r: bool)
        requires
            bounded(*pos, COORD_LIMIT as int),
        ensures
            r == spec_carpet_can_place_at(*world, *pos),
    {
        carpet_can_place_at(world, pos)
    }

    pub fn get_state_for_neighbor_update(world: &BlockWorld, pos: &BlockPos) -> (r: Survival)
        requires
            bounded(*pos, COORD_LIMIT as int),
        ensures
            r == if spec_carpet_can_place_at(*world, *pos) {
                Survival::Keep
            } else {
                Survival::Remove
            },
    {
        if !carpet_can_place_at(world, pos) {
            return Survival::Remove;
        }
        Survival::Keep
    }
}

impl PaleMossCarpetBlock {
    pub fn can_place_at(world: &BlockWorld, pos: &BlockPos) -> (r: bool)
        requires
            bounded(*pos, COORD_LIMIT as int),
        ensures
            r == spec_carpet_can_place_at(*world, *pos),
    {
        carpet_can_place_at(world, pos)
    }

    pub fn get_state_for_neighbor_update(world: &BlockWorld, pos: &BlockPos) -> (r: Survival)
        requires
            bounded(*pos, COORD_LIMIT as int),
        ensures
            r == if spec_carpet_can_place_at(*world, *pos) {
                Survival::Keep
            } else {
                Survival::Remove
            },
    {
        if !carpet_can_place_at(world, pos) {
            return Survival::Remove;
        }
        Survival::Keep
    }
}

// ---------------------------------------------------------------- trapdoors

/// What a trapdoor is made of.
#[derive(Clone, Copy, Debug, PartialEq, Eq, Structural)]
pub enum TrapdoorKind {
    Wooden,
    Iron,
    Copper,
}

#[derive(Clone, Copy, Debug, PartialEq, Eq, Structural)]
pub enum Half {
    Top,
    Bottom,
}

#[derive(Clone, Copy, Debug, PartialEq, Eq, Structural)]
pub enum TrapdoorSound {
    WoodenOpen,
    WoodenClose,
    IronOpen,
    IronClose,
    CopperOpen,
    CopperClose,
}

/// The kinds of path a mob may look for.
#[derive(Clone, Copy, Debug, PartialEq, Eq, Structural)]
pub enum PathComputationType {
    Land,
    Water,
    Air,
}

#[derive(Clone, Copy, Debug, PartialEq, Eq, Structural)]
pub struct TrapdoorProps {
    pub facing: HorizontalFacing,
    pub half: Half,
    pub open: bool,
    pub powered: bool,
    pub waterlogged: bool,
}

pub struct TrapDoorBlock;

pub open spec fn spec_trapdoor_sound(kind: TrapdoorKind, open: bool) -> TrapdoorSound {
    match kind {
        TrapdoorKind::Wooden => if open {
            TrapdoorSound::WoodenOpen
        } else {
            TrapdoorSound::WoodenClose
        },
        TrapdoorKind::Iron => if open {
            TrapdoorSound::IronOpen
        } else {
            TrapdoorSound::IronClose
        },
        TrapdoorKind::Copper => if open {
            TrapdoorSound::CopperOpen
        } else {
            TrapdoorSound::CopperClose
        },
    }
}

pub open spec fn spec_facing_of(d: BlockDirection) -> HorizontalFacing {
    match d {
        BlockDirection::South => HorizontalFacing::South,
        BlockDirection::West => HorizontalFacing::West,
        BlockDirection::East => HorizontalFacing::East,
        _ => HorizontalFacing::North,
    }
}

pub open spec fn spec_opposite_facing(f: HorizontalFacing) -> HorizontalFacing {
    match f {
        HorizontalFacing::North => HorizontalFacing::South,
        HorizontalFacing::South => HorizontalFacing::North,
        HorizontalFacing::West => HorizontalFacing::East,
        HorizontalFacing::East => HorizontalFacing::West,
    }
}

impl TrapDoorBlock {
    /// Iron trapdoors open only by redstone.
    pub fn can_open_trapdoor(kind: TrapdoorKind) -> (r: bool)
        ensures
            r == (kind != TrapdoorKind::Iron),
    {
        match kind {
            TrapdoorKind::Iron => false,
            _ => true,
        }
    }

    pub fn get_sound(kind: TrapdoorKind, open: bool) -> (r: TrapdoorSound)
        ensures
            r == spec_trapdoor_sound(kind, open),
    {
        match kind {
            TrapdoorKind::Wooden => if open {
                TrapdoorSound::WoodenOpen
            } else {
                TrapdoorSound::WoodenClose
            },
            TrapdoorKind::Iron => if open {
                TrapdoorSound::IronOpen
            } else {
                TrapdoorSound::IronClose
            },
            TrapdoorKind::Copper => if open {
                TrapdoorSound::CopperOpen
            } else {
                TrapdoorSound::CopperClose
            },
        }
    }

    /// A player uses the trapdoor: it toggles open, unless it is iron.
    pub fn normal_use(kind: TrapdoorKind, props: TrapdoorProps) -> (r: Option<TrapdoorProps>)
        ensures
            r == if kind == TrapdoorKind::Iron {
                None
            } else {
                Some(TrapdoorProps { open: !props.open, ..props })
            },
    {
        if !Self::can_open_trapdoor(kind) {
            return None;
        }
        Some(TrapdoorProps { open: !props.open, ..props })
    }

    /// The state of a placed trapdoor.  Clicking the side of a block hangs it
    /// on that side, in the upper half when the click was in the upper half of
    /// the face (`upper_click`); clicking a top or bottom face lays it facing
    /// away from the player, at the bottom when placed on a top face.  A
    /// powered position places it open.
    pub fn on_place(
        clicked: BlockDirection,
        upper_click: bool,
        player_facing: HorizontalFacing,
        powered: bool,
        water_source: bool,
    ) -> (r: TrapdoorProps)
        ensures
            r.waterlogged == water_source,
            r.powered == powered,
            r.open == powered,
            (clicked != BlockDirection::Up && clicked != BlockDirection::Down) ==> r.facing
                == spec_facing_of(clicked) && r.half == if upper_click {
                Half::Top
            } else {
                Half::Bottom
            },
            (clicked == BlockDirection::Up || clicked == BlockDirection::Down) ==> r.facing
                == spec_opposite_facing(player_facing) && r.half == if clicked == BlockDirection::Up {
                Half::Bottom
            } else {
                Half::Top
            },
    {
        let facing;
        let half;
        match clicked.to_horizontal_facing() {
            Some(h) => {
                facing = h;
                half = if upper_click {
                    Half::Top
                } else {
                    Half::Bottom
                };
            },
            None => {
                facing = player_facing.opposite();
                half = if clicked == BlockDirection::Up {
                    Half::Bottom
                } else {
                    Half::Top
                };
            },
        }
        TrapdoorProps { facing, half, open: powered, powered, waterlogged: water_source }
    }

    /// Top and bottom clicks always succeed; a click on a side needs a
    /// sturdy face on the block behind.
    pub fn can_place_at(world: &BlockWorld, pos: &BlockPos, clicked: Option<BlockDirection>) -> (r:
        bool)
        requires
            bounded(*pos, COORD_LIMIT as int),
        ensures
            r == match clicked {
                None => true,
                Some(d) => if d == BlockDirection::Up || d == BlockDirection::Down {
                    true
                } else {
                    face_in(world.get_spec(spec_offset(*pos, spec_opposite(d), 1)).sturdy, d)
                },
            },
    {
        let face = match clicked {
            Some(d) => d,
            None => BlockDirection::Up,
        };
        match face {
            BlockDirection::Up | BlockDirection::Down => true,
            horizontal => {
                let support_pos = pos.offset(horizontal.opposite());
                let support_state = world.get_block_state(&support_pos);
                support_state.is_side_solid(horizontal)
            },
        }
    }

    /// A neighbour changed and the trapdoor is powered or not: the powered
    /// flag follows, and when the power changed to differ from the open state
    /// the trapdoor opens or closes with it, with a sound.
    pub fn on_neighbor_update(kind: TrapdoorKind, props: TrapdoorProps, powered: bool) -> (r: (
        TrapdoorProps,
        Option<TrapdoorSound>,
    ))
        ensures
            powered == props.powered ==> r == (props, None::<TrapdoorSound>),
            powered != props.powered && powered != props.open ==> r == (
                TrapdoorProps { powered, open: powered, ..props },
                Some(spec_trapdoor_sound(kind, powered)),
            ),
            powered != props.powered && powered == props.open ==> r == (
                TrapdoorProps { powered, ..props },
                None::<TrapdoorSound>,
            ),
    {
        let mut p = props;
        let mut sound = None;
        if powered != p.powered {
            p.powered = !p.powered;
            if powered != p.open {
                p.open = p.powered;
                sound = Some(Self::get_sound(kind, powered));
            }
        }
        (p, sound)
    }

    /// A trapdoor whose supporting wall (`neighbor`, towards `direction`)
    /// loses its sturdy face turns to air.
    pub fn get_state_for_neighbor_update(
        world: &BlockWorld,
        props: TrapdoorProps,
        direction: BlockDirection,
        neighbor: &BlockPos,
    ) -> (r: Survival)
        ensures
            r == if direction == spec_opposite(spec_facing_direction(props.facing)) && !face_in(
                world.get_spec(*neighbor).sturdy,
                spec_facing_direction(props.facing),
            ) {
                Survival::Remove
            } else {
                Survival::Keep
            },
    {
        let attach_dir = props.facing.to_block_direction().opposite();
        if direction == attach_dir {
            let support_state = world.get_block_state(neighbor);
            if !support_state.is_side_solid(props.facing.to_block_direction()) {
                return Survival::Remove;
            }
        }
        Survival::Keep
    }

    /// Mobs may walk or fly through an open trapdoor and swim through a
    /// waterlogged one.
    pub fn is_pathfindable(props: TrapdoorProps, computation_type: PathComputationType) -> (r: bool)
        ensures
            r == match computation_type {
                PathComputationType::Land | PathComputationType::Air => props.open,
                PathComputationType::Water => props.waterlogged,
            },
    {
        match computation_type {
            PathComputationType::Land | PathComputationType::Air => props.open,
            PathComputationType::Water => props.waterlogged,
        }
    }

    /// An explosion toggles an unpowered, non-iron trapdoor.
    pub fn explode(kind: TrapdoorKind, props: TrapdoorProps) -> (r: Option<
        (TrapdoorProps, TrapdoorSound),
    >)
        ensures
            r == if kind == TrapdoorKind::Iron || props.powered {
                None
            } else {
                Some(
                    (
                        TrapdoorProps { open: !props.open, ..props },
                        spec_trapdoor_sound(kind, !props.open),
                    ),
                )
            },
    {
        if !Self::can_open_trapdoor(kind) {
            return None;
        }
        if props.powered {
            return None;
        }
        let open = !props.open;
        Some((TrapdoorProps { open, ..props }, Self::get_sound(kind, open)))
    }
}

// ---------------------------------------------------------------- shelf mushroom

#[derive(Clone, Copy, Debug, PartialEq, Eq, Structural)]
pub struct ShelfMushroomProps {
    /// Points away from the wall the mushroom grows on.
    pub facing: HorizontalFacing,
    /// 0 small, 1 large.
    pub age: u8,
}

pub struct ShelfMushroomBlock;

pub open spec fn spec_solid_towards(world: BlockWorld, pos: BlockPos, d: BlockDirection) -> bool {
    world.get_spec(spec_offset(pos, d, 1)).solid
}

/// The first horizontal direction in `order` from index `k` on, skipping up
/// and down, with a solid block that way.
pub open spec fn first_solid_side(
    world: BlockWorld,
    pos: BlockPos,
    order: Seq<BlockDirection>,
    k: int,
) -> Option<BlockDirection>
    decreases order.len() - k,
{
    if k < 0 || k >= order.len() {
        None
    } else if order[k] != BlockDirection::Up && order[k] != BlockDirection::Down
        && spec_solid_towards(world, pos, order[k]) {
        Some(order[k])
    } else {
        first_solid_side(world, pos, order, k + 1)
    }
}

impl ShelfMushroomBlock {
    /// A shelf mushroom needs a solid block on some horizontal side.
    pub fn can_place_at(world: &BlockWorld, pos: &BlockPos) -> (r: bool)
        requires
            bounded(*pos, COORD_LIMIT as int),
        ensures
            r == exists|i: int|
                0 <= i < 4 && spec_solid_towards(
                    *world,
                    *pos,
                    spec_facing_direction(#[trigger] horizontal_order()[i]),
                ),
    {
        let dirs = horizontals();
        let mut i: usize = 0;
        while i < 4
            invariant
                i <= 4,
                bounded(*pos, COORD_LIMIT as int),
                dirs@ == horizontal_order(),
                forall|t: int|
                    0 <= t < i ==> !spec_solid_towards(
                        *world,
                        *pos,
                        spec_facing_direction(#[trigger] horizontal_order()[t]),
                    ),
            decreases 4 - i,
        {
            let support_pos = pos.offset(dirs[i].to_block_direction());
            if world.get_block_state(&support_pos).is_solid() {
                return true;
            }
            i += 1;
        }
        false
    }

    /// The state of a placed shelf mushroom: small, growing on the first
    /// solid side in the player's facing order, else on the first solid
    /// horizontal side, else facing north.
    pub fn on_place(world: &BlockWorld, pos: &BlockPos, facing_order: [BlockDirection; 6]) -> (r:
        ShelfMushroomProps)
        requires
            bounded(*pos, COORD_LIMIT as int),
        ensures
            r.age == 0,
            r.facing == match first_solid_side(*world, *pos, facing_order@, 0) {
                Some(d) => spec_facing_of(spec_opposite(d)),
                None => match first_solid_side(
                    *world,
                    *pos,
                    horizontal_order().map_values(|f: HorizontalFacing| spec_facing_direction(f)),
                    0,
                ) {
                    Some(d) => spec_facing_of(spec_opposite(d)),
                    None => HorizontalFacing::North,
                },
            },
    {
        let mut k: usize = 0;
        while k < 6
            invariant
                k <= 6,
                bounded(*pos, COORD_LIMIT as int),
                first_solid_side(*world, *pos, facing_order@, 0) == first_solid_side(
                    *world,
                    *pos,
                    facing_order@,
                    k as int,
                ),
            decreases 6 - k,
        {
            let dir = facing_order[k];
            if dir != BlockDirection::Up && dir != BlockDirection::Down {
                let support_pos = pos.offset(dir);
                if world.get_block_state(&support_pos).is_solid() {
                    match dir.opposite().to_horizontal_facing() {
                        Some(facing) => {
                            return ShelfMushroomProps { facing, age: 0 };
                        },
                        None => {},
                    }
                }
            }
            k += 1;
        }
        let dirs = horizontals();
        let ghost hs = horizontal_order().map_values(|f: HorizontalFacing| spec_facing_direction(f));
        let mut i: usize = 0;
        while i < 4
            invariant
                i <= 4,
                bounded(*pos, COORD_LIMIT as int),
                dirs@ == horizontal_order(),
                hs == horizontal_order().map_values(|f: HorizontalFacing| spec_facing_direction(f)),
                first_solid_side(*world, *pos, facing_order@, 0) is None,
                first_solid_side(*world, *pos, hs, 0) == first_solid_side(*world, *pos, hs, i as int),
            decreases 4 - i,
        {
            let d = dirs[i].to_block_direction();
            let support_pos = pos.offset(d);
            if world.get_block_state(&support_pos).is_solid() {
                assert(hs[i as int] == d);
                return ShelfMushroomProps { facing: dirs[i].opposite(), age: 0 };
            }
            i += 1;
        }
        ShelfMushroomProps { facing: HorizontalFacing::North, age: 0 }
    }

    /// The mushroom falls off when the block it grows on is no longer solid.
    pub fn get_state_for_neighbor_update(world: &BlockWorld, pos: &BlockPos, props: ShelfMushroomProps) -> (r:
        Survival)
        requires
            bounded(*pos, COORD_LIMIT as int),
        ensures
            r == if spec_solid_towards(
                *world,
                *pos,
                spec_opposite(spec_facing_direction(props.facing)),
            ) {
                Survival::Keep
            } else {
                Survival::Remove
            },
    {
        let support_pos = pos.offset(props.facing.to_block_direction().opposite());
        if !world.get_block_state(&support_pos).is_solid() {
            Survival::Remove
        } else {
            Survival::Keep
        }
    }

    /// Bone meal grows only a small mushroom.
    pub fn is_valid_bonemeal_target(props: ShelfMushroomProps) -> (r: bool)
        ensures
            r == (props.age == 0),
    {
        props.age == 0
    }

    /// Bone meal makes a small mushroom large.
    pub fn perform_bonemeal(props: ShelfMushroomProps) -> (r: Option<ShelfMushroomProps>)
        ensures
            r == if props.age == 0 {
                Some(ShelfMushroomProps { age: 1, ..props })
            } else {
                None
            },
    {
        if props.age == 0 {
            Some(ShelfMushroomProps { age: 1, facing: props.facing })
        } else {
            None
        }
    }
}

// ---------------------------------------------------------------- straw bed

#[derive(Clone, Copy, Debug, PartialEq, Eq, Structural)]
pub enum BedPart {
    Head,
    Foot,
}

#[derive(Clone, Copy, Debug, PartialEq, Eq, Structural)]
pub struct BedProps {
    /// Points from the foot to the head.
    pub facing: HorizontalFacing,
    pub part: BedPart,
    pub occupied: bool,
}

/// What using a straw bed does.
#[derive(Clone, Copy, Debug, PartialEq, Eq, Structural)]
pub enum BedUse {
    /// Spectators cannot use beds.
    Pass,
    /// Beds blow up where one cannot sleep in this dimension.
    Explode,
    /// Someone already sleeps here.
    Occupied,
    /// It is not the time to sleep.
    NoSleep,
    /// The player lies down in the bed.
    Sleep,
}

pub struct StrawBedBlock;

pub open spec fn spec_other_half(pos: BlockPos, props: BedProps) -> BlockPos {
    if props.part == BedPart::Head {
        spec_offset(pos, spec_opposite(spec_facing_direction(props.facing)), 1)
    } else {
        spec_offset(pos, spec_facing_direction(props.facing), 1)
    }
}

impl StrawBedBlock {
    /// The position of the other half of a bed.
    pub fn other_half(pos: &BlockPos, props: BedProps) -> (r: BlockPos)
        requires
            bounded(*pos, COORD_LIMIT as int),
        ensures
            r == spec_other_half(*pos, props),
    {
        if props.part == BedPart::Head {
            pos.offset(props.facing.to_block_direction().opposite())
        } else {
            pos.offset(props.facing.to_block_direction())
        }
    }

    /// Head and foot positions of the bed one half of which is at `pos`.
    pub fn head_and_foot(pos: &BlockPos, props: BedProps) -> (r: (BlockPos, BlockPos))
        requires
            bounded(*pos, COORD_LIMIT as int),
        ensures
            props.part == BedPart::Head ==> r == (*pos, spec_other_half(*pos, props)),
            props.part == BedPart::Foot ==> r == (spec_other_half(*pos, props), *pos),
    {
        let other = Self::other_half(pos, props);
        if props.part == BedPart::Head {
            (*pos, other)
        } else {
            (other, *pos)
        }
    }

    /// A placed bed is its foot, facing the way the player looks.
    pub fn on_place(player_facing: HorizontalFacing) -> (r: BedProps)
        ensures
            r == (BedProps { facing: player_facing, part: BedPart::Foot, occupied: false }),
    {
        BedProps { facing: player_facing, part: BedPart::Foot, occupied: false }
    }

    /// The head half set in front of a placed foot.
    pub fn placed_head(foot: BedProps) -> (r: BedProps)
        ensures
            r == (BedProps { facing: foot.facing, part: BedPart::Head, occupied: false }),
    {
        BedProps { facing: foot.facing, part: BedPart::Head, occupied: false }
    }

    /// What using the bed does.
    pub fn normal_use(spectator: bool, bed_explodes: bool, props: BedProps, can_sleep: bool) -> (r:
        BedUse)
        ensures
            r == if spectator {
                BedUse::Pass
            } else if bed_explodes {
                BedUse::Explode
            } else if props.occupied {
                BedUse::Occupied
            } else if !can_sleep {
                BedUse::NoSleep
            } else {
                BedUse::Sleep
            },
    {
        if spectator {
            return BedUse::Pass;
        }
        if bed_explodes {
            return BedUse::Explode;
        }
        if props.occupied {
            return BedUse::Occupied;
        }
        if !can_sleep {
            return BedUse::NoSleep;
        }
        BedUse::Sleep
    }

    /// Breaking the bed at `pos` (with properties `props`): it turns to air,
    /// and so does its other half when that is a straw bed too.  Answers
    /// whether the other half went.
    pub fn destroy_bed(world: &mut BlockWorld, pos: &BlockPos, props: BedProps) -> (r: bool)
        requires
            bounded(*pos, COORD_LIMIT as int),
        ensures
            r == (old(world).get_spec(*pos).block == Block::StrawBed && old(world).get_spec(
                spec_other_half(*pos, props),
            ).block == Block::StrawBed && spec_other_half(*pos, props) != *pos),
            final(world).get_spec(*pos) == spec_default_state(Block::Air),
            r ==> final(world).get_spec(spec_other_half(*pos, props)) == spec_default_state(
                Block::Air,
            ),
            forall|p: BlockPos|
                #![trigger final(world).get_spec(p)]
                p != *pos && !(r && p == spec_other_half(*pos, props)) ==> final(world).get_spec(p)
                    == old(world).get_spec(p),
    {
        if world.get_block(pos) == Block::StrawBed {
            let other = Self::other_half(pos, props);
            world.set_block(*pos, Block::Air);
            if other != *pos && world.get_block(&other) == Block::StrawBed {
                world.set_block(other, Block::Air);
                return true;
            }
            false
        } else {
            world.set_block(*pos, Block::Air);
            false
        }
    }

    /// Breaking one half breaks the other when it is the matching half of the
    /// same bed (a straw bed, other part, same facing).
    pub fn breaks_other_half(props: BedProps, other_is_straw_bed: bool, other: BedProps) -> (r:
        bool)
        ensures
            r == (other_is_straw_bed && other.part != props.part && other.facing == props.facing),
    {
        other_is_straw_bed && other.part != props.part && other.facing == props.facing
    }
}

/// The two halves of a bed point at each other.
pub proof fn law_bed_halves_pair(pos: BlockPos, props: BedProps)
    requires
        bounded(pos, COORD_LIMIT as int),
    ensures
        spec_other_half(
            spec_other_half(pos, props),
            BedProps {
                part: if props.part == BedPart::Head {
                    BedPart::Foot
                } else {
                    BedPart::Head
                },
                ..props
            },
        ) == pos,
{
}

} // verus!
