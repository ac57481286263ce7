use vstd::prelude::*;

use crate::blocks::Survival;
use crate::geometry::{bounded, spec_offset, BlockDirection, BlockPos, COORD_LIMIT};
use crate::rng::{random_bool, random_u8, shuffle_offsets};
use crate::world::{spec_default_state, Block, BlockWorld, SaplingKind};

verus! {

// ---------------------------------------------------------------- plants

/// Soil that ordinary plants grow on: dirt-like blocks and farmland.
pub open spec fn spec_plant_soil(b: Block) -> bool {
    b == Block::Dirt || b == Block::GrassBlock || b == Block::Farmland
}

pub open spec fn spec_plant_can_place_at(world: BlockWorld, pos: BlockPos) -> bool {
    spec_plant_soil(world.get_spec(spec_offset(pos, BlockDirection::Down, 1)).block)
}

fn is_plant_soil(b: Block) -> (r: bool)
    ensures
        r == spec_plant_soil(b),
{
    b == Block::Dirt || b == Block::GrassBlock || b == Block::Farmland
}

/// A plant stays only on soil.
pub fn plant_can_place_at(world: &BlockWorld, pos: &BlockPos) -> (r: bool)
    requires
        bounded(*pos, COORD_LIMIT as int),
    ensures
        r == spec_plant_can_place_at(*world, *pos),
{
    is_plant_soil(world.get_block(&pos.down()))
}

// ---------------------------------------------------------------- saplings

/// The kind of tree a growing sapling reports to plugins.
#[derive(Clone, Copy, Debug, PartialEq, Eq, Structural)]
pub enum TreeType {
    Oak,
    Spruce,
    Birch,
    Jungle,
    Acacia,
    DarkOak,
    Cherry,
    Azalea,
    Mangrove,
    Custom,
}

/// The tree shapes a sapling can grow into.
#[derive(Clone, Copy, Debug, PartialEq, Eq, Structural)]
pub enum TreeFeature {
    Oak,
    FancyOak,
    Spruce,
    MegaSpruce,
    MegaPine,
    Birch,
    JungleTree,
    MegaJungleTree,
    Acacia,
    DarkOak,
    PaleOak,
    Cherry,
    Mangrove,
    AzaleaTree,
}

/// What a growth step does before any tree appears.
#[derive(Clone, Copy, Debug, PartialEq, Eq, Structural)]
pub enum SaplingStep {
    /// The sapling only moves on to the given stage.
    SetStage(u8),
    /// The tree grows now.
    Grow,
}

/// Where and what a tree grows: `origin` is the corner of a 2x2 group of
/// saplings, or the sapling itself.
#[derive(Clone, Copy, Debug, PartialEq, Eq, Structural)]
pub struct GrowthPlan {
    pub feature: TreeFeature,
    pub origin: BlockPos,
    pub two_by_two: bool,
}

pub struct SaplingBlock;

pub open spec fn spec_tree_type(b: Block) -> TreeType {
    match b {
        Block::Sapling(k) => match k {
            SaplingKind::Oak => TreeType::Oak,
            SaplingKind::Spruce => TreeType::Spruce,
            SaplingKind::Birch => TreeType::Birch,
            SaplingKind::Jungle => TreeType::Jungle,
            SaplingKind::Acacia => TreeType::Acacia,
            SaplingKind::DarkOak | SaplingKind::PaleOak => TreeType::DarkOak,
            SaplingKind::Cherry => TreeType::Cherry,
            SaplingKind::Azalea | SaplingKind::FloweringAzalea => TreeType::Azalea,
            SaplingKind::MangrovePropagule => TreeType::Mangrove,
        },
        _ => TreeType::Custom,
    }
}

/// The saplings that look for a 2x2 group before growing.
pub open spec fn spec_checks_two_by_two(k: SaplingKind) -> bool {
    k == SaplingKind::DarkOak || k == SaplingKind::Spruce || k == SaplingKind::Jungle
}

/// The sapling's position shifted by `dx` and `dz`.
pub open spec fn shifted(p: BlockPos, dx: int, dz: int) -> BlockPos {
    BlockPos { x: (p.x + dx) as i32, y: p.y, z: (p.z + dz) as i32 }
}

/// Four saplings of `block` stand with `origin` as their north-west corner.
pub open spec fn spec_square_at(world: BlockWorld, origin: BlockPos, block: Block) -> bool {
    &&& world.get_spec(origin).block == block
    &&& world.get_spec(shifted(origin, 1, 0)).block == block
    &&& world.get_spec(shifted(origin, 0, 1)).block == block
    &&& world.get_spec(shifted(origin, 1, 1)).block == block
}

/// The first corner, in the order (0, 0), (0, -1), (-1, 0), (-1, -1), of a
/// 2x2 group of `block` that holds `pos`.
pub open spec fn spec_find_2x2(world: BlockWorld, pos: BlockPos, block: Block) -> Option<BlockPos> {
    if spec_square_at(world, shifted(pos, 0, 0), block) {
        Some(shifted(pos, 0, 0))
    } else if spec_square_at(world, shifted(pos, 0, -1), block) {
        Some(shifted(pos, 0, -1))
    } else if spec_square_at(world, shifted(pos, -1, 0), block) {
        Some(shifted(pos, -1, 0))
    } else if spec_square_at(world, shifted(pos, -1, -1), block) {
        Some(shifted(pos, -1, -1))
    } else {
        None
    }
}

/// The tree a sapling of kind `k` grows: `two_by_two` says whether it stands
/// in a 2x2 group, `coin` picks between the two large spruces, `fancy` is the
/// one-in-ten chance of a fancy oak.  A dark oak grows only in a group.
pub open spec fn spec_feature(k: SaplingKind, two_by_two: bool, coin: bool, fancy: bool) -> Option<
    TreeFeature,
> {
    match k {
        SaplingKind::DarkOak => if two_by_two {
            Some(TreeFeature::DarkOak)
        } else {
            None
        },
        SaplingKind::Spruce => if two_by_two {
            if coin {
                Some(TreeFeature::MegaSpruce)
            } else {
                Some(TreeFeature::MegaPine)
            }
        } else {
            Some(TreeFeature::Spruce)
        },
        SaplingKind::Jungle => if two_by_two {
            Some(TreeFeature::MegaJungleTree)
        } else {
            Some(TreeFeature::JungleTree)
        },
        SaplingKind::Oak => if fancy {
            Some(TreeFeature::FancyOak)
        } else {
            Some(TreeFeature::Oak)
        },
        SaplingKind::Birch => Some(TreeFeature::Birch),
        SaplingKind::Acacia => Some(TreeFeature::Acacia),
        SaplingKind::Cherry => Some(TreeFeature::Cherry),
        SaplingKind::PaleOak => Some(TreeFeature::PaleOak),
        SaplingKind::MangrovePropagule => Some(TreeFeature::Mangrove),
        SaplingKind::Azalea | SaplingKind::FloweringAzalea => Some(TreeFeature::AzaleaTree),
    }
}

/// The sapling that grows a tree shape: an oak (plain or fancy) from an oak
/// sapling, a spruce, mega spruce or mega pine from spruce, a jungle tree (of
/// either size) from jungle, an azalea tree from either azalea, and every
/// other shape from the sapling of its own name.
pub open spec fn grows_from(f: TreeFeature, k: SaplingKind) -> bool {
    match f {
        TreeFeature::Oak | TreeFeature::FancyOak => k == SaplingKind::Oak,
        TreeFeature::Spruce | TreeFeature::MegaSpruce | TreeFeature::MegaPine => k
            == SaplingKind::Spruce,
        TreeFeature::Birch => k == SaplingKind::Birch,
        TreeFeature::JungleTree | TreeFeature::MegaJungleTree => k == SaplingKind::Jungle,
        TreeFeature::Acacia => k == SaplingKind::Acacia,
        TreeFeature::DarkOak => k == SaplingKind::DarkOak,
        TreeFeature::PaleOak => k == SaplingKind::PaleOak,
        TreeFeature::Cherry => k == SaplingKind::Cherry,
        TreeFeature::Mangrove => k == SaplingKind::MangrovePropagule,
        TreeFeature::AzaleaTree => k == SaplingKind::Azalea || k == SaplingKind::FloweringAzalea,
    }
}

/// The shapes that need a 2x2 group of saplings.
pub open spec fn is_large_tree(f: TreeFeature) -> bool {
    f == TreeFeature::MegaSpruce || f == TreeFeature::MegaPine || f == TreeFeature::MegaJungleTree
        || f == TreeFeature::DarkOak
}

/// Each sapling grows its own kind of tree: the shape chosen is one that
/// sapling grows (and, for its tree type, the type the sapling reports).  Only
/// a lone dark oak grows nothing.  The large shapes come exactly from a 2x2
/// group of spruce, jungle or dark oak; of two large spruces the coin picks
/// the mega spruce; an oak is fancy exactly on the fancy roll.
pub proof fn law_sapling_grows_its_own_tree(
    k: SaplingKind,
    two_by_two: bool,
    coin: bool,
    fancy: bool,
)
    ensures
        spec_feature(k, two_by_two, coin, fancy) is None <==> (k == SaplingKind::DarkOak
            && !two_by_two),
        spec_feature(k, two_by_two, coin, fancy) matches Some(f) ==> {
            &&& grows_from(f, k)
            &&& is_large_tree(f) <==> (two_by_two && spec_checks_two_by_two(k))
            &&& k == SaplingKind::Spruce && two_by_two ==> (f == TreeFeature::MegaSpruce
                <==> coin)
            &&& k == SaplingKind::Oak ==> (f == TreeFeature::FancyOak <==> fancy)
        },
{
}

/// Where a sapling grows, the plan's shape is one that sapling grows, and a
/// 2x2 plan starts at a 2x2 group of that sapling.
pub proof fn law_plan_grows_its_own_tree(
    world: BlockWorld,
    pos: BlockPos,
    k: SaplingKind,
    coin: bool,
    fancy: bool,
)
    ensures
        spec_plan(world, pos, k, coin, fancy) matches Some(plan) ==> grows_from(plan.feature, k)
            && (plan.two_by_two ==> spec_square_at(world, plan.origin, Block::Sapling(k)))
            && (!plan.two_by_two ==> plan.origin == pos),
{
    law_sapling_grows_its_own_tree(k, spec_checks_two_by_two(k) && spec_find_2x2(world, pos, Block::Sapling(k)) is Some, coin, fancy);
    law_sapling_grows_its_own_tree(k, false, coin, fancy);
}

/// The growth of the sapling of kind `k` at `pos`.
pub open spec fn spec_plan(world: BlockWorld, pos: BlockPos, k: SaplingKind, coin: bool, fancy: bool) -> Option<
    GrowthPlan,
> {
    let square = if spec_checks_two_by_two(k) {
        spec_find_2x2(world, pos, Block::Sapling(k))
    } else {
        None
    };
    match spec_feature(k, square is Some, coin, fancy) {
        Some(f) => Some(
            GrowthPlan {
                feature: f,
                origin: match square {
                    Some(o) => o,
                    None => pos,
                },
                two_by_two: square is Some,
            },
        ),
        None => None,
    }
}

/// The positions a plan takes the saplings from (and gives them back to).
pub open spec fn plan_cells(plan: GrowthPlan) -> Set<BlockPos> {
    if plan.two_by_two {
        set![
            plan.origin,
            shifted(plan.origin, 1, 0),
            shifted(plan.origin, 0, 1),
            shifted(plan.origin, 1, 1),
        ]
    } else {
        set![plan.origin]
    }
}

impl SaplingBlock {
    /// The tree type of a sapling block; any other block is `Custom`.
    pub fn get_tree_type(block: Block) -> (r: TreeType)
        ensures
            r == spec_tree_type(block),
    {
        match block {
            Block::Sapling(k) => match k {
                SaplingKind::Oak => TreeType::Oak,
                SaplingKind::Spruce => TreeType::Spruce,
                SaplingKind::Birch => TreeType::Birch,
                SaplingKind::Jungle => TreeType::Jungle,
                SaplingKind::Acacia => TreeType::Acacia,
                SaplingKind::DarkOak | SaplingKind::PaleOak => TreeType::DarkOak,
                SaplingKind::Cherry => TreeType::Cherry,
                SaplingKind::Azalea | SaplingKind::FloweringAzalea => TreeType::Azalea,
                SaplingKind::MangrovePropagule => TreeType::Mangrove,
            },
            _ => TreeType::Custom,
        }
    }

    /// A growth step: a sapling with a stage property at stage 0 moves to
    /// stage 1; otherwise (later stage, or no stage property) the tree grows.
    pub fn advance_tree(stage: Option<u8>) -> (r: SaplingStep)
        ensures
            stage == Some(0u8) ==> r == SaplingStep::SetStage(1),
            stage != Some(0u8) ==> r == SaplingStep::Grow,
    {
        match stage {
            Some(s) => if s == 0 {
                SaplingStep::SetStage(1)
            } else {
                SaplingStep::Grow
            },
            None => SaplingStep::Grow,
        }
    }

    fn is_matching_sapling(world: &BlockWorld, pos: &BlockPos, block: Block) -> (r: bool)
        ensures
            r == (world.get_spec(*pos).block == block),
    {
        world.get_block(pos) == block
    }

    fn square_at(world: &BlockWorld, origin: &BlockPos, block: Block) -> (r: bool)
        requires
            bounded(*origin, COORD_LIMIT as int + 1),
        ensures
            r == spec_square_at(*world, *origin, block),
    {
        Self::is_matching_sapling(world, origin, block) && Self::is_matching_sapling(
            world,
            &origin.add(1, 0, 0),
            block,
        ) && Self::is_matching_sapling(world, &origin.add(0, 0, 1), block)
            && Self::is_matching_sapling(world, &origin.add(1, 0, 1), block)
    }

    /// The corner of a 2x2 group of `block` that holds `pos`, trying the
    /// corners (0, 0), (0, -1), (-1, 0) and (-1, -1) in turn.
    pub fn find_2x2_origin(world: &BlockWorld, pos: &BlockPos, block: Block) -> (r: Option<
        BlockPos,
    >)
        requires
            bounded(*pos, COORD_LIMIT as int),
        ensures
            r == spec_find_2x2(*world, *pos, block),
    {
        let offsets: [(i32, i32); 4] = [(0, 0), (0, -1), (-1, 0), (-1, -1)];
        let mut i: usize = 0;
        while i < 4
            invariant
                0 <= i <= 4,
                bounded(*pos, COORD_LIMIT as int),
                offsets@ == seq![(0i32, 0i32), (0i32, -1i32), (-1i32, 0i32), (-1i32, -1i32)],
                forall|j: int|
                    0 <= j < i ==> !spec_square_at(
                        *world,
                        shifted(*pos, offsets@[j].0 as int, offsets@[j].1 as int),
                        block,
                    ),
            decreases 4 - i,
        {
            let (dx, dz) = offsets[i];
            let origin = BlockPos::new(pos.x + dx, pos.y, pos.z + dz);
            assert(origin == shifted(*pos, dx as int, dz as int));
            if Self::square_at(world, &origin, block) {
                return Some(origin);
            }
            i += 1;
        }
        None
    }

    /// The tree of a sapling of kind `kind` (see `spec_feature`).
    pub fn choose_feature(kind: SaplingKind, two_by_two: bool, coin: bool, fancy: bool) -> (r:
        Option<TreeFeature>)
        ensures
            r == spec_feature(kind, two_by_two, coin, fancy),
    {
        match kind {
            SaplingKind::DarkOak => if two_by_two {
                Some(TreeFeature::DarkOak)
            } else {
                None
            },
            SaplingKind::Spruce => if two_by_two {
                if coin {
                    Some(TreeFeature::MegaSpruce)
                } else {
                    Some(TreeFeature::MegaPine)
                }
            } else {
                Some(TreeFeature::Spruce)
            },
            SaplingKind::Jungle => if two_by_two {
                Some(TreeFeature::MegaJungleTree)
            } else {
                Some(TreeFeature::JungleTree)
            },
            SaplingKind::Oak => if fancy {
                Some(TreeFeature::FancyOak)
            } else {
                Some(TreeFeature::Oak)
            },
            SaplingKind::Birch => Some(TreeFeature::Birch),
            SaplingKind::Acacia => Some(TreeFeature::Acacia),
            SaplingKind::Cherry => Some(TreeFeature::Cherry),
            SaplingKind::PaleOak => Some(TreeFeature::PaleOak),
            SaplingKind::MangrovePropagule => Some(TreeFeature::Mangrove),
            SaplingKind::Azalea | SaplingKind::FloweringAzalea => Some(TreeFeature::AzaleaTree),
        }
    }

    /// The growth of the sapling at `pos` for the given coin and fancy-oak
    /// roll; `None` when nothing grows (a lone dark oak).
    pub fn plan_growth_with(
        world: &BlockWorld,
        pos: &BlockPos,
        kind: SaplingKind,
        coin: bool,
        fancy: bool,
    ) -> (r: Option<GrowthPlan>)
        requires
            bounded(*pos, COORD_LIMIT as int),
        ensures
            r == spec_plan(*world, *pos, kind, coin, fancy),
    {
        let checks = match kind {
            SaplingKind::DarkOak | SaplingKind::Spruce | SaplingKind::Jungle => true,
            _ => false,
        };
        let square = if checks {
            Self::find_2x2_origin(world, pos, Block::Sapling(kind))
        } else {
            None
        };
        let two = square.is_some();
        match Self::choose_feature(kind, two, coin, fancy) {
            Some(f) => {
                let origin = match square {
                    Some(o) => o,
                    None => *pos,
                };
                Some(GrowthPlan { feature: f, origin, two_by_two: two })
            },
            None => None,
        }
    }

    /// The growth of the sapling at `pos`; a coin is drawn for a large
    /// spruce.  Whatever the coin, the plan is that of `plan_growth_with`.
    pub fn plan_growth(world: &BlockWorld, pos: &BlockPos, kind: SaplingKind, fancy: bool) -> (r:
        Option<GrowthPlan>)
        requires
            bounded(*pos, COORD_LIMIT as int),
        ensures
            r == spec_plan(*world, *pos, kind, false, fancy) || r == spec_plan(
                *world,
                *pos,
                kind,
                true,
                fancy,
            ),
    {
        let coin = if kind == SaplingKind::Spruce {
            random_bool()
        } else {
            false
        };
        Self::plan_growth_with(world, pos, kind, coin, fancy)
    }

    /// Clears the saplings of a plan to air before the tree is placed.
    pub fn clear_for_growth(world: &mut BlockWorld, plan: GrowthPlan)
        requires
            bounded(plan.origin, COORD_LIMIT as int + 1),
        ensures
            forall|p: BlockPos|
                #![trigger final(world).get_spec(p)]
                plan_cells(plan).contains(p) ==> final(world).get_spec(p) == spec_default_state(
                    Block::Air,
                ),
            forall|p: BlockPos|
                #![trigger final(world).get_spec(p)]
                !plan_cells(plan).contains(p) ==> final(world).get_spec(p) == old(world).get_spec(
                    p,
                ),
    {
        Self::set_cells(world, plan, Block::Air);
    }

    /// Puts the saplings of a plan back after the tree failed to grow.
    pub fn restore_after_failure(world: &mut BlockWorld, plan: GrowthPlan, kind: SaplingKind)
        requires
            bounded(plan.origin, COORD_LIMIT as int + 1),
        ensures
            forall|p: BlockPos|
                #![trigger final(world).get_spec(p)]
                plan_cells(plan).contains(p) ==> final(world).get_spec(p) == spec_default_state(
                    Block::Sapling(kind),
                ),
            forall|p: BlockPos|
                #![trigger final(world).get_spec(p)]
                !plan_cells(plan).contains(p) ==> final(world).get_spec(p) == old(world).get_spec(
                    p,
                ),
    {
        Self::set_cells(world, plan, Block::Sapling(kind));
    }

    fn set_cells(world: &mut BlockWorld, plan: GrowthPlan, block: Block)
        requires
            bounded(plan.origin, COORD_LIMIT as int + 1),
        ensures
            forall|p: BlockPos|
                #![trigger final(world).get_spec(p)]
                plan_cells(plan).contains(p) ==> final(world).get_spec(p) == spec_default_state(
                    block,
                ),
            forall|p: BlockPos|
                #![trigger final(world).get_spec(p)]
                !plan_cells(plan).contains(p) ==> final(world).get_spec(p) == old(world).get_spec(
                    p,
                ),
    {
        let o = plan.origin;
        world.set_block(o, block);
        if plan.two_by_two {
            let a = o.add(1, 0, 0);
            let b = o.add(0, 0, 1);
            let c = o.add(1, 0, 1);
            assert(a == shifted(o, 1, 0));
            assert(b == shifted(o, 0, 1));
            assert(c == shifted(o, 1, 1));
            world.set_block(a, block);
            world.set_block(b, block);
            world.set_block(c, block);
        }
    }

    /// A random tick grows the sapling when the drawn byte is a multiple of 7.
    pub fn random_tick_roll(roll: u8) -> (r: bool)
        ensures
            r == (roll % 7 == 0),
    {
        roll % 7 == 0
    }

    /// Draws the byte of a random tick; whether the sapling grows is then
    /// `random_tick_roll` of it.  Either answer may come.
    pub fn random_tick_advances() -> (r: bool) {
        let roll = random_u8();
        Self::random_tick_roll(roll)
    }

    pub fn can_place_at(world: &BlockWorld, pos: &BlockPos) -> (r: bool)
        requires
            bounded(*pos, COORD_LIMIT as int),
        ensures
            r == spec_plant_can_place_at(*world, *pos),
    {
        plant_can_place_at(world, pos)
    }

    /// A sapling without soil below turns to air.
    pub fn get_state_for_neighbor_update(world: &BlockWorld, pos: &BlockPos) -> (r: Survival)
        requires
            bounded(*pos, COORD_LIMIT as int),
        ensures
            r == if spec_plant_can_place_at(*world, *pos) {
                Survival::Keep
            } else {
                Survival::Remove
            },
    {
        if plant_can_place_at(world, pos) {
            Survival::Keep
        } else {
            Survival::Remove
        }
    }

    /// Bone meal can always be used on a sapling.
    pub fn is_valid_bonemeal_target() -> (r: bool)
        ensures
            r,
    {
        true
    }
}

// ---------------------------------------------------------------- red shrub

/// A shrub that grows on soil, nylium and netherrack; bone meal spreads it to
/// a random free neighbour.
pub struct RedShrubBlock;

pub open spec fn spec_red_shrub_soil(b: Block) -> bool {
    spec_plant_soil(b) || b == Block::CrimsonNylium || b == Block::WarpedNylium || b
        == Block::Netherrack
}

pub open spec fn spec_red_shrub_can_place_at(world: BlockWorld, pos: BlockPos) -> bool {
    spec_red_shrub_soil(world.get_spec(spec_offset(pos, BlockDirection::Down, 1)).block)
}

/// The eight horizontal neighbours, in the order they are listed before the
/// shuffle.
pub open spec fn spec_neighbor_offsets() -> Seq<(i32, i32)> {
    seq![(-1i32, -1i32), (-1i32, 0i32), (-1i32, 1i32), (0i32, -1i32), (0i32, 1i32), (1i32, -1i32), (1i32, 0i32), (1i32, 1i32)]
}

pub open spec fn unit_offsets(order: Seq<(i32, i32)>) -> bool {
    forall|i: int| 0 <= i < order.len() ==> -1 <= #[trigger] order[i].0 <= 1 && -1 <= order[i].1 <= 1
}

/// The first neighbour, in `order` from index `i`, that is replaceable and
/// where a shrub could stand.
pub open spec fn spec_spread_target(world: BlockWorld, pos: BlockPos, order: Seq<(i32, i32)>, i: int) -> Option<
    BlockPos,
>
    decreases order.len() - i,
{
    if i < 0 || i >= order.len() {
        None
    } else {
        let p = shifted(pos, order[i].0 as int, order[i].1 as int);
        if world.get_spec(p).replaceable && spec_red_shrub_can_place_at(world, p) {
            Some(p)
        } else {
            spec_spread_target(world, pos, order, i + 1)
        }
    }
}

impl RedShrubBlock {
    pub fn can_plant_on_top(block: Block) -> (r: bool)
        ensures
            r == spec_red_shrub_soil(block),
    {
        is_plant_soil(block) || block == Block::CrimsonNylium || block == Block::WarpedNylium
            || block == Block::Netherrack
    }

    pub fn can_place_at(world: &BlockWorld, pos: &BlockPos) -> (r: bool)
        requires
            bounded(*pos, COORD_LIMIT as int + 1),
        ensures
            r == spec_red_shrub_can_place_at(*world, *pos),
    {
        Self::can_plant_on_top(world.get_block(&pos.down()))
    }

    /// A shrub without soil below turns to air.
    pub fn get_state_for_neighbor_update(world: &BlockWorld, pos: &BlockPos) -> (r: Survival)
        requires
            bounded(*pos, COORD_LIMIT as int),
        ensures
            r == if spec_red_shrub_can_place_at(*world, *pos) {
                Survival::Keep
            } else {
                Survival::Remove
            },
    {
        if Self::can_place_at(world, pos) {
            Survival::Keep
        } else {
            Survival::Remove
        }
    }

    /// Bone meal can always be used on a shrub.
    pub fn is_valid_bonemeal_target() -> (r: bool)
        ensures
            r,
    {
        true
    }

    pub fn neighbor_offsets() -> (r: [(i32, i32); 8])
        ensures
            r@ == spec_neighbor_offsets(),
    {
        [(-1, -1), (-1, 0), (-1, 1), (0, -1), (0, 1), (1, -1), (1, 0), (1, 1)]
    }

    /// Where bone meal spreads the shrub at `pos` when the neighbours are
    /// tried in `order`.
    pub fn spread_target(world: &BlockWorld, pos: &BlockPos, order: &[(i32, i32); 8]) -> (r: Option<
        BlockPos,
    >)
        requires
            bounded(*pos, COORD_LIMIT as int),
            unit_offsets(order@),
        ensures
            r == spec_spread_target(*world, *pos, order@, 0),
    {
        let mut i: usize = 0;
        while i < 8
            invariant
                0 <= i <= 8,
                bounded(*pos, COORD_LIMIT as int),
                unit_offsets(order@),
                spec_spread_target(*world, *pos, order@, 0) == spec_spread_target(
                    *world,
                    *pos,
                    order@,
                    i as int,
                ),
            decreases 8 - i,
        {
            let (dx, dz) = order[i];
            assert(-1 <= order@[i as int].0 <= 1 && -1 <= order@[i as int].1 <= 1);
            let target = BlockPos::new(pos.x + dx, pos.y, pos.z + dz);
            assert(target == shifted(*pos, dx as int, dz as int));
            if world.get_block_state(&target).replaceable && Self::can_place_at(world, &target) {
                return Some(target);
            }
            i += 1;
        }
        None
    }

    /// Bone meal: the neighbours are shuffled and the shrub spreads to the
    /// first that is replaceable and has soil below; nothing happens when none
    /// has.  Whatever order the shuffle gave, it holds the eight neighbours,
    /// and the result is the spread target for that order.
    pub fn perform_bonemeal(world: &mut BlockWorld, pos: &BlockPos) -> (r: Option<BlockPos>)
        requires
            bounded(*pos, COORD_LIMIT as int),
        ensures
            exists|order: Seq<(i32, i32)>|
                #![trigger spec_spread_target(*old(world), *pos, order, 0)]
                order.len() == 8 && order.to_multiset() == spec_neighbor_offsets().to_multiset()
                    && r == spec_spread_target(*old(world), *pos, order, 0),
            r is None ==> final(world).get_spec(*pos) == old(world).get_spec(*pos) && forall|
                p: BlockPos,
            | #![trigger final(world).get_spec(p)] final(world).get_spec(p) == old(world).get_spec(p),
            r matches Some(t) ==> final(world).get_spec(t) == spec_default_state(Block::RedShrub)
                && forall|p: BlockPos|
                #![trigger final(world).get_spec(p)]
                p != t ==> final(world).get_spec(p) == old(world).get_spec(p),
    {
        let listed = Self::neighbor_offsets();
        let mut order = listed;
        shuffle_offsets(&mut order);
        proof {
            broadcast use vstd::seq_lib::to_multiset_contains;

            assert forall|i: int| 0 <= i < order@.len() implies -1 <= #[trigger] order@[i].0 <= 1
                && -1 <= order@[i].1 <= 1 by {
                assert(order@.contains(order@[i]));
                assert(order@.to_multiset().count(order@[i]) > 0);
                assert(listed@.contains(order@[i]));
                let j = choose|j: int| 0 <= j < listed@.len() && listed@[j] == order@[i];
                assert(0 <= j < 8);
            }
        }
        let target = Self::spread_target(world, pos, &order);
        match target {
            Some(t) => {
                world.set_block(t, Block::RedShrub);
            },
            None => {},
        }
        target
    }
}

} // verus!
