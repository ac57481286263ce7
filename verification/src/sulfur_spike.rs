use vstd::prelude::*;

use crate::geometry::{bounded, BlockDirection, BlockPos, COORD_LIMIT};
use crate::world::{
    spec_default_state, spec_is_air, Block, BlockState, BlockWorld, SpikeThickness,
    VerticalDirection,
};

verus! {

/// Sulfur spikes hang from (or stand on) sulfur and solid blocks and grow into
/// columns whose segments are shaped by their length.
pub struct SulfurSpikeBlock;

/// The properties of a spike placed in the world.
#[derive(Clone, Copy, Debug, PartialEq, Eq, Structural)]
pub struct SpikeProps {
    pub direction: VerticalDirection,
    pub thickness: SpikeThickness,
    pub waterlogged: bool,
}

pub open spec fn spec_flip(d: VerticalDirection) -> VerticalDirection {
    match d {
        VerticalDirection::Up => VerticalDirection::Down,
        VerticalDirection::Down => VerticalDirection::Up,
    }
}

/// The position `k` blocks above `p` (below for negative `k`).
pub open spec fn vshift(p: BlockPos, k: int) -> BlockPos {
    BlockPos { x: p.x, y: (p.y + k) as i32, z: p.z }
}

pub open spec fn spike_thickness_of(b: Block) -> SpikeThickness {
    match b {
        Block::SulfurSpike(_, t) => t,
        _ => SpikeThickness::Tip,
    }
}

pub open spec fn is_spike(b: Block) -> bool {
    b matches Block::SulfurSpike(_, _)
}

/// A spike whose support lies in direction `dir` can grow from the block at
/// `pos`: sulfur, a full block, or a spike whose direction is the flip of
/// `dir`.
pub open spec fn spec_can_place_spike_on(world: BlockWorld, pos: BlockPos, dir: VerticalDirection) -> bool {
    let b = world.get_spec(pos).block;
    match b {
        Block::SulfurSpike(d, _) => d == spec_flip(dir),
        _ => b == Block::Sulfur || spec_default_state(b).solid,
    }
}

/// The direction a spike at `pos` would point: the clicked face decides first
/// (the top face of a block below makes it stand, the bottom face of a block
/// above makes it hang), else standing is tried before hanging.
pub open spec fn spec_support_direction(world: BlockWorld, pos: BlockPos, face: Option<BlockDirection>) -> Option<
    VerticalDirection,
> {
    if face == Some(BlockDirection::Up) && spec_can_place_spike_on(
        world,
        vshift(pos, -1),
        VerticalDirection::Up,
    ) {
        Some(VerticalDirection::Up)
    } else if face == Some(BlockDirection::Down) && spec_can_place_spike_on(
        world,
        vshift(pos, 1),
        VerticalDirection::Down,
    ) {
        Some(VerticalDirection::Down)
    } else if spec_can_place_spike_on(world, vshift(pos, -1), VerticalDirection::Up) {
        Some(VerticalDirection::Up)
    } else if spec_can_place_spike_on(world, vshift(pos, 1), VerticalDirection::Down) {
        Some(VerticalDirection::Down)
    } else {
        None
    }
}

pub open spec fn spec_can_place_at(world: BlockWorld, pos: BlockPos, face: Option<BlockDirection>) -> bool {
    spec_support_direction(world, pos, face) is Some
}

/// The block `k` steps from a tip pointing `d`, going towards its base.
pub open spec fn toward_base(tip: BlockPos, d: VerticalDirection, k: int) -> BlockPos {
    match d {
        VerticalDirection::Up => vshift(tip, -k),
        VerticalDirection::Down => vshift(tip, k),
    }
}

/// The block `k` steps from the tip pointing `d` is a spike pointing `d`.
pub open spec fn spec_run_continues(world: BlockWorld, tip: BlockPos, d: VerticalDirection, k: int) -> bool {
    world.get_spec(toward_base(tip, d, k)).block == Block::SulfurSpike(
        d,
        spike_thickness_of(world.get_spec(toward_base(tip, d, k)).block),
    )
}

/// The column behind a tip ends within 254 blocks.
pub open spec fn run_ends(world: BlockWorld, tip: BlockPos, d: VerticalDirection) -> bool {
    exists|j: int| 1 <= j <= 254 && !#[trigger] spec_run_continues(world, tip, d, j)
}

/// The state `s` with its spike thickness set to `t` (other blocks unchanged).
pub open spec fn with_thickness(s: BlockState, t: SpikeThickness) -> BlockState {
    match s.block {
        Block::SulfurSpike(d, _) => BlockState { block: Block::SulfurSpike(d, t), ..s },
        _ => s,
    }
}

/// The thickness the update of a column of length `len` whose tip at `tip`
/// points `d` gives the block at `p`: the tip becomes a tip (a merged tip when
/// a spike faces it, which becomes one too); behind it come a frustum, then
/// for three blocks a base, for four a middle and a base.
pub open spec fn spec_column_shape(
    world: BlockWorld,
    len: int,
    tip: BlockPos,
    d: VerticalDirection,
    p: BlockPos,
) -> Option<SpikeThickness> {
    let facing = toward_base(tip, d, -1);
    let merge = is_spike(world.get_spec(facing).block);
    if p == tip {
        Some(
            if merge {
                SpikeThickness::TipMerge
            } else {
                SpikeThickness::Tip
            },
        )
    } else if p == facing && merge {
        Some(SpikeThickness::TipMerge)
    } else if p == toward_base(tip, d, 1) && 2 <= len <= 4 {
        Some(SpikeThickness::Frustum)
    } else if p == toward_base(tip, d, 2) && len == 3 {
        Some(SpikeThickness::Base)
    } else if p == toward_base(tip, d, 2) && len == 4 {
        Some(SpikeThickness::Middle)
    } else if p == toward_base(tip, d, 3) && len == 4 {
        Some(SpikeThickness::Base)
    } else {
        None
    }
}

/// The world after a column update: every block the shape names gets its
/// thickness, the rest is unchanged.
pub open spec fn shaped(old_world: BlockWorld, new_world: BlockWorld, len: int, tip: BlockPos, d: VerticalDirection) -> bool {
    forall|p: BlockPos|
        #![trigger new_world.get_spec(p)]
        new_world.get_spec(p) == match spec_column_shape(old_world, len, tip, d, p) {
            Some(t) => with_thickness(old_world.get_spec(p), t),
            None => old_world.get_spec(p),
        }
}

pub fn flip_dir(d: VerticalDirection) -> (r: VerticalDirection)
    ensures
        r == spec_flip(d),
{
    match d {
        VerticalDirection::Up => VerticalDirection::Down,
        VerticalDirection::Down => VerticalDirection::Up,
    }
}

fn vpos(p: &BlockPos, k: i32) -> (r: BlockPos)
    requires
        bounded(*p, COORD_LIMIT as int),
        -1000 <= k <= 1000,
    ensures
        r == vshift(*p, k as int),
{
    BlockPos { x: p.x, y: p.y + k, z: p.z }
}

fn base_step(d: VerticalDirection) -> (r: i32)
    ensures
        r == match d {
            VerticalDirection::Up => -1i32,
            VerticalDirection::Down => 1i32,
        },
{
    match d {
        VerticalDirection::Up => -1,
        VerticalDirection::Down => 1,
    }
}

/// Whether a spike pointing `dir` can grow from the block at `pos`.
pub fn can_place_spike_on(world: &BlockWorld, pos: &BlockPos, dir: VerticalDirection) -> (r: bool)
    ensures
        r == spec_can_place_spike_on(*world, *pos, dir),
{
    let b = world.get_block(pos);
    match b {
        Block::SulfurSpike(d, _) => d == flip_dir(dir),
        _ => b == Block::Sulfur || b.default_state().solid,
    }
}

/// The direction a spike at `pos` would point (see `spec_support_direction`).
pub fn get_support_block_vertical_direction(
    world: &BlockWorld,
    pos: &BlockPos,
    face: Option<BlockDirection>,
) -> (r: Option<VerticalDirection>)
    requires
        bounded(*pos, COORD_LIMIT as int),
    ensures
        r == spec_support_direction(*world, *pos, face),
{
    let below = vpos(pos, -1);
    let above = vpos(pos, 1);
    if face == Some(BlockDirection::Up) && can_place_spike_on(world, &below, VerticalDirection::Up) {
        return Some(VerticalDirection::Up);
    }
    if face == Some(BlockDirection::Down) && can_place_spike_on(
        world,
        &above,
        VerticalDirection::Down,
    ) {
        return Some(VerticalDirection::Down);
    }
    if can_place_spike_on(world, &below, VerticalDirection::Up) {
        Some(VerticalDirection::Up)
    } else if can_place_spike_on(world, &above, VerticalDirection::Down) {
        Some(VerticalDirection::Down)
    } else {
        None
    }
}

/// The length of the column behind the tip at `tip` pointing `d` (the tip
/// counts), and that direction.
pub fn get_len_and_dir_from_tip(world: &BlockWorld, tip: &BlockPos, d: VerticalDirection) -> (r: (
    u8,
    VerticalDirection,
))
    requires
        bounded(*tip, COORD_LIMIT as int),
        run_ends(*world, *tip, d),
    ensures
        r.1 == d,
        1 <= r.0 <= 254,
        forall|j: int| 1 <= j < r.0 ==> #[trigger] spec_run_continues(*world, *tip, d, j),
        !spec_run_continues(*world, *tip, d, r.0 as int),
{
    let step = base_step(d);
    let mut len: u8 = 1;
    let mut current = *tip;
    loop
        invariant
            1 <= len <= 254,
            bounded(*tip, COORD_LIMIT as int),
            run_ends(*world, *tip, d),
            step == match d {
                VerticalDirection::Up => -1i32,
                VerticalDirection::Down => 1i32,
            },
            current == toward_base(*tip, d, len - 1),
            forall|j: int| 1 <= j < len ==> #[trigger] spec_run_continues(*world, *tip, d, j),
        decreases 255 - len,
    {
        let next = BlockPos { x: current.x, y: current.y + step, z: current.z };
        assert(next == toward_base(*tip, d, len as int));
        let continues = match world.get_block(&next) {
            Block::SulfurSpike(e, _) => e == d,
            _ => false,
        };
        if !continues {
            return (len, d);
        }
        if len == 254 {
            proof {
                let j = choose|j: int|
                    1 <= j <= 254 && !#[trigger] spec_run_continues(*world, *tip, d, j);
                assert(spec_run_continues(*world, *tip, d, j));
                assert(false);
            }
        }
        current = next;
        len = len + 1;
    }
}

/// Sets the thickness of the spike at `pos` (nothing else changes; a block
/// that is not a spike is left alone).
pub fn modify_spike_thickness_to(world: &mut BlockWorld, pos: &BlockPos, t: SpikeThickness)
    ensures
        final(world).get_spec(*pos) == with_thickness(old(world).get_spec(*pos), t),
        forall|p: BlockPos|
            #![trigger final(world).get_spec(p)]
            p != *pos ==> final(world).get_spec(p) == old(world).get_spec(p),
{
    let s = world.get_block_state(pos);
    if let Block::SulfurSpike(d, _) = s.block {
        world.set_block_state(*pos, BlockState { block: Block::SulfurSpike(d, t), ..s });
    }
}

/// Reshapes the column of length `len` whose tip at `tip` points `d` (see
/// `spec_column_shape`).
pub fn update_column(world: &mut BlockWorld, len: u8, tip: &BlockPos, d: VerticalDirection)
    requires
        bounded(*tip, COORD_LIMIT as int),
    ensures
        shaped(*old(world), *final(world), len as int, *tip, d),
{
    let ghost w0 = *world;
    let step = base_step(d);
    let facing = vpos(tip, -step);
    assert(facing == toward_base(*tip, d, -1));
    let merge = match world.get_block(&facing) {
        Block::SulfurSpike(_, _) => true,
        _ => false,
    };
    if merge {
        modify_spike_thickness_to(world, tip, SpikeThickness::TipMerge);
        modify_spike_thickness_to(world, &facing, SpikeThickness::TipMerge);
    } else {
        modify_spike_thickness_to(world, tip, SpikeThickness::Tip);
    }
    let p1 = vpos(tip, step);
    let p2 = vpos(tip, 2 * step);
    let p3 = vpos(tip, 3 * step);
    assert(p1 == toward_base(*tip, d, 1));
    assert(p2 == toward_base(*tip, d, 2));
    assert(p3 == toward_base(*tip, d, 3));
    if len == 2 {
        modify_spike_thickness_to(world, &p1, SpikeThickness::Frustum);
    } else if len == 3 {
        modify_spike_thickness_to(world, &p1, SpikeThickness::Frustum);
        modify_spike_thickness_to(world, &p2, SpikeThickness::Base);
    } else if len == 4 {
        modify_spike_thickness_to(world, &p1, SpikeThickness::Frustum);
        modify_spike_thickness_to(world, &p2, SpikeThickness::Middle);
        modify_spike_thickness_to(world, &p3, SpikeThickness::Base);
    }
    assert forall|p: BlockPos| #[trigger] world.get_spec(p) == match spec_column_shape(
        w0,
        len as int,
        *tip,
        d,
        p,
    ) {
        Some(t) => with_thickness(w0.get_spec(p), t),
        None => w0.get_spec(p),
    } by {}
}

/// A random tick grows the spike at `pos`: it hangs down from sulfur right
/// above it (a column of one) and has air below.
pub open spec fn spec_spike_grows(world: BlockWorld, pos: BlockPos) -> bool {
    &&& world.get_spec(pos).block matches Block::SulfurSpike(VerticalDirection::Down, _)
    &&& world.get_spec(vshift(pos, 1)).block == Block::Sulfur
    &&& spec_is_air(world.get_spec(vshift(pos, -1)))
}

/// The state at `p` once the spike at `pos` has grown a tip below it: the new
/// tip (merged, with the spike it meets, when a spike stands beneath it), the
/// old tip a frustum, the rest as before.
pub open spec fn spec_after_growth(world: BlockWorld, pos: BlockPos, p: BlockPos) -> BlockState {
    let below = vshift(pos, -1);
    let facing = vshift(pos, -2);
    let merge = is_spike(world.get_spec(facing).block);
    if p == below {
        with_thickness(
            spec_default_state(Block::SulfurSpike(VerticalDirection::Down, SpikeThickness::Tip)),
            if merge {
                SpikeThickness::TipMerge
            } else {
                SpikeThickness::Tip
            },
        )
    } else if p == facing && merge {
        with_thickness(world.get_spec(p), SpikeThickness::TipMerge)
    } else if p == pos {
        with_thickness(world.get_spec(p), SpikeThickness::Frustum)
    } else {
        world.get_spec(p)
    }
}

impl SulfurSpikeBlock {
    /// A spike can be placed where it has support (see
    /// `spec_support_direction`).
    pub fn can_place_at(world: &BlockWorld, pos: &BlockPos, face: Option<BlockDirection>) -> (r:
        bool)
        requires
            bounded(*pos, COORD_LIMIT as int),
        ensures
            r == spec_can_place_at(*world, *pos, face),
    {
        get_support_block_vertical_direction(world, pos, face).is_some()
    }

    /// Placing: the spike points away from its support, starts as a tip, and
    /// is waterlogged when it replaces a water source; without support the
    /// result is air (`None`).
    pub fn on_place(world: &BlockWorld, pos: &BlockPos, face: BlockDirection, replacing_water: bool) -> (r:
        Option<SpikeProps>)
        requires
            bounded(*pos, COORD_LIMIT as int),
        ensures
            r == match spec_support_direction(*world, *pos, Some(face)) {
                Some(d) => Some(
                    SpikeProps {
                        direction: spec_flip(d),
                        thickness: SpikeThickness::Tip,
                        waterlogged: replacing_water,
                    },
                ),
                None => None,
            },
    {
        match get_support_block_vertical_direction(world, pos, Some(face)) {
            Some(d) => Some(
                SpikeProps {
                    direction: flip_dir(d),
                    thickness: SpikeThickness::Tip,
                    waterlogged: replacing_water,
                },
            ),
            None => None,
        }
    }

    /// After placing a spike pointing `d` at `pos`, its column is reshaped.
    pub fn placed(world: &mut BlockWorld, pos: &BlockPos, d: VerticalDirection) -> (r: u8)
        requires
            bounded(*pos, COORD_LIMIT as int),
            run_ends(*old(world), *pos, d),
        ensures
            1 <= r <= 254,
            forall|j: int| 1 <= j < r ==> #[trigger] spec_run_continues(*old(world), *pos, d, j),
            !spec_run_continues(*old(world), *pos, d, r as int),
            shaped(*old(world), *final(world), r as int, *pos, d),
    {
        let (len, _) = get_len_and_dir_from_tip(world, pos, d);
        update_column(world, len, pos, d);
        len
    }

    /// After the spike pointing `d` at `pos` broke, the block behind it is the
    /// new tip and its column is reshaped.
    pub fn broken(world: &mut BlockWorld, pos: &BlockPos, d: VerticalDirection) -> (r: (BlockPos, u8))
        requires
            bounded(*pos, COORD_LIMIT as int - 1),
            run_ends(*old(world), toward_base(*pos, d, 1), d),
        ensures
            r.0 == toward_base(*pos, d, 1),
            1 <= r.1 <= 254,
            forall|j: int|
                1 <= j < r.1 ==> #[trigger] spec_run_continues(*old(world), r.0, d, j),
            !spec_run_continues(*old(world), r.0, d, r.1 as int),
            shaped(*old(world), *final(world), r.1 as int, r.0, d),
    {
        let new_tip = vpos(pos, base_step(d));
        let (len, _) = get_len_and_dir_from_tip(world, &new_tip, d);
        update_column(world, len, &new_tip, d);
        (new_tip, len)
    }

    /// A neighbour changed: without support the spike turns to air (`None`);
    /// a merged tip whose partner is gone becomes a plain tip; otherwise it
    /// stays.
    pub fn get_state_for_neighbor_update(world: &BlockWorld, pos: &BlockPos, props: SpikeProps) -> (r:
        Option<SpikeProps>)
        requires
            bounded(*pos, COORD_LIMIT as int),
        ensures
            r == if !spec_can_place_at(*world, *pos, None) {
                None
            } else if props.thickness == SpikeThickness::TipMerge && !is_spike(
                world.get_spec(toward_base(*pos, props.direction, -1)).block,
            ) {
                Some(SpikeProps { thickness: SpikeThickness::Tip, ..props })
            } else {
                Some(props)
            },
    {
        if !Self::can_place_at(world, pos, None) {
            return None;
        }
        if props.thickness != SpikeThickness::TipMerge {
            return Some(props);
        }
        let facing = vpos(pos, -base_step(props.direction));
        assert(facing == toward_base(*pos, props.direction, -1));
        match world.get_block(&facing) {
            Block::SulfurSpike(_, _) => Some(props),
            _ => Some(SpikeProps { thickness: SpikeThickness::Tip, ..props }),
        }
    }

    /// A random tick on a hanging spike whose column is shorter than two and
    /// hangs from sulfur: a new tip grows into the air below and the column is
    /// reshaped.  Answers whether it grew.
    pub fn random_tick(world: &mut BlockWorld, pos: &BlockPos) -> (r: bool)
        requires
            bounded(*pos, COORD_LIMIT as int - 1),
            old(world).get_spec(*pos).block matches Block::SulfurSpike(d, _) ==> run_ends(
                *old(world),
                *pos,
                d,
            ),
        ensures
            r == spec_spike_grows(*old(world), *pos),
            !r ==> *final(world) == *old(world),
            r ==> forall|p: BlockPos|
                #![trigger final(world).get_spec(p)]
                final(world).get_spec(p) == spec_after_growth(*old(world), *pos, p),
    {
        let d = match world.get_block(pos) {
            Block::SulfurSpike(d, _) => d,
            _ => return false,
        };
        if d != VerticalDirection::Down {
            return false;
        }
        let (len, _) = get_len_and_dir_from_tip(world, pos, d);
        if len >= 2 {
            proof {
                assert(spec_run_continues(*world, *pos, d, 1));
                assert(toward_base(*pos, d, 1) == vshift(*pos, 1));
            }
            return false;
        }
        let root = vpos(pos, len as i32);
        assert(root == vshift(*pos, 1));
        if world.get_block(&root) != Block::Sulfur {
            return false;
        }
        let below = vpos(pos, -1);
        if !world.get_block_state(&below).is_air() {
            return false;
        }
        let ghost w0 = *world;
        let tip_state = Block::SulfurSpike(VerticalDirection::Down, SpikeThickness::Tip).default_state();
        world.set_block_state(below, tip_state);
        let ghost w1 = *world;
        update_column(world, len + 1, &below, VerticalDirection::Down);
        proof {
            assert(toward_base(below, VerticalDirection::Down, -1) == vshift(*pos, -2));
            assert(toward_base(below, VerticalDirection::Down, 1) == *pos);
            assert(vshift(*pos, -2) != below);
            assert(w1.get_spec(vshift(*pos, -2)) == w0.get_spec(vshift(*pos, -2)));
            assert forall|p: BlockPos| #[trigger] world.get_spec(p) == spec_after_growth(
                w0,
                *pos,
                p,
            ) by {
                assert(world.get_spec(p) == match spec_column_shape(
                    w1,
                    2,
                    below,
                    VerticalDirection::Down,
                    p,
                ) {
                    Some(t) => with_thickness(w1.get_spec(p), t),
                    None => w1.get_spec(p),
                });
            }
        }
        true
    }

    /// Mobs do not path through spikes.
    pub fn is_pathfindable() -> (r: bool)
        ensures
            !r,
    {
        false
    }
}

} // verus!
