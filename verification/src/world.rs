use vstd::prelude::*;

use crate::geometry::{BlockDirection, BlockPos};

verus! {

/// How a block reacts to being pushed by a piston.
#[derive(Clone, Copy, Debug, PartialEq, Eq, Structural)]
pub enum PistonBehavior {
    Normal,
    Destroy,
    Block,
    Ignore,
    PushOnly,
}

/// The kinds of sapling-like plants that grow into trees.
#[derive(Clone, Copy, Debug, PartialEq, Eq, Structural)]
pub enum SaplingKind {
    Oak,
    Spruce,
    Birch,
    Jungle,
    Acacia,
    DarkOak,
    PaleOak,
    Cherry,
    Azalea,
    FloweringAzalea,
    MangrovePropagule,
}

/// The blocks whose identity the rules of this library look at.  Every other
/// block is `Other` with its numeric id.
#[derive(Clone, Copy, Debug, PartialEq, Eq, Structural)]
pub enum Block {
    Air,
    Stone,
    Dirt,
    Glass,
    Obsidian,
    CryingObsidian,
    RespawnAnchor,
    ReinforcedDeepslate,
    Bedrock,
    Piston,
    StickyPiston,
    SlimeBlock,
    HoneyBlock,
    RedstoneTorch,
    RedstoneWallTorch,
    Water,
    Lava,
    MagmaBlock,
    PotentSulfur,
    Sapling(SaplingKind),
    GrassBlock,
    Farmland,
    Netherrack,
    CrimsonNylium,
    WarpedNylium,
    RedShrub,
    Bookshelf,
    Sulfur,
    SulfurSpike(VerticalDirection, SpikeThickness),
    Jukebox,
    IronBars,
    /// Any bed.
    Bed,
    StrawBed,
    SculkSensor,
    CalibratedSculkSensor,
    Other(u16),
}

/// Which way a spike points.
#[derive(Clone, Copy, Debug, PartialEq, Eq, Structural)]
pub enum VerticalDirection {
    Up,
    Down,
}

/// The segment of a spike a block forms, from its tip to its base.
#[derive(Clone, Copy, Debug, PartialEq, Eq, Structural)]
pub enum SpikeThickness {
    TipMerge,
    Tip,
    Frustum,
    Middle,
    Base,
}

/// A set of block faces.
#[derive(Clone, Copy, Debug, PartialEq, Eq, Structural)]
pub struct FaceSet {
    pub down: bool,
    pub up: bool,
    pub north: bool,
    pub south: bool,
    pub west: bool,
    pub east: bool,
}

pub open spec fn face_in(f: FaceSet, d: BlockDirection) -> bool {
    match d {
        BlockDirection::Down => f.down,
        BlockDirection::Up => f.up,
        BlockDirection::North => f.north,
        BlockDirection::South => f.south,
        BlockDirection::West => f.west,
        BlockDirection::East => f.east,
    }
}

impl FaceSet {
    pub fn all_faces(v: bool) -> (r: FaceSet)
        ensures
            forall|d: BlockDirection| face_in(r, d) == v,
    {
        FaceSet { down: v, up: v, north: v, south: v, west: v, east: v }
    }

    pub fn contains(&self, d: BlockDirection) -> (r: bool)
        ensures
            r == face_in(*self, d),
    {
        match d {
            BlockDirection::Down => self.down,
            BlockDirection::Up => self.up,
            BlockDirection::North => self.north,
            BlockDirection::South => self.south,
            BlockDirection::West => self.west,
            BlockDirection::East => self.east,
        }
    }
}

/// The facts about a block state that the rules read.
#[derive(Clone, Copy, Debug, PartialEq, Eq, Structural)]
pub struct BlockState {
    pub block: Block,
    pub piston_behavior: PistonBehavior,
    /// The block cannot be broken (its hardness is -1).
    pub unbreakable: bool,
    pub has_block_entity: bool,
    /// For pistons: whether the piston arm is out.
    pub extended: bool,
    /// The block counts as solid (blocks movement).
    pub solid: bool,
    /// The faces on which the block offers full, sturdy support.
    pub sturdy: FaceSet,
    /// Placing a block here replaces this one (air and fluids).
    pub replaceable: bool,
}

pub open spec fn spec_is_air(s: BlockState) -> bool {
    s.block == Block::Air
}

pub open spec fn spec_default_state(b: Block) -> BlockState {
    let full = match b {
        Block::Stone | Block::Dirt | Block::Glass | Block::Obsidian | Block::CryingObsidian
        | Block::RespawnAnchor | Block::ReinforcedDeepslate | Block::Bedrock | Block::Piston
        | Block::StickyPiston | Block::SlimeBlock | Block::MagmaBlock | Block::PotentSulfur
        | Block::GrassBlock | Block::Netherrack | Block::CrimsonNylium | Block::WarpedNylium
        | Block::Bookshelf | Block::Sulfur | Block::Jukebox => true,
        _ => false,
    };
    BlockState {
        block: b,
        piston_behavior: match b {
            Block::RedstoneTorch | Block::RedstoneWallTorch | Block::Sapling(_) | Block::RedShrub
            | Block::SulfurSpike(_, _) => PistonBehavior::Destroy,
            Block::Obsidian | Block::CryingObsidian => PistonBehavior::Block,
            Block::Water | Block::Lava => PistonBehavior::Destroy,
            _ => PistonBehavior::Normal,
        },
        unbreakable: b == Block::Bedrock,
        has_block_entity: b == Block::PotentSulfur,
        extended: false,
        solid: full,
        sturdy: FaceSet { down: full, up: full, north: full, south: full, west: full, east: full },
        replaceable: b == Block::Air || b == Block::Water || b == Block::Lava,
    }
}

impl Block {
    /// The state a block is placed in when nothing else is said.
    pub fn default_state(self) -> (r: BlockState)
        ensures
            r == spec_default_state(self),
    {
        let full = match self {
            Block::Stone | Block::Dirt | Block::Glass | Block::Obsidian | Block::CryingObsidian
            | Block::RespawnAnchor | Block::ReinforcedDeepslate | Block::Bedrock | Block::Piston
            | Block::StickyPiston | Block::SlimeBlock | Block::MagmaBlock | Block::PotentSulfur
            | Block::GrassBlock | Block::Netherrack | Block::CrimsonNylium | Block::WarpedNylium
            | Block::Bookshelf | Block::Sulfur | Block::Jukebox => true,
            _ => false,
        };
        let behavior = match self {
            Block::RedstoneTorch | Block::RedstoneWallTorch | Block::Sapling(_) | Block::RedShrub
            | Block::SulfurSpike(_, _) => PistonBehavior::Destroy,
            Block::Obsidian | Block::CryingObsidian => PistonBehavior::Block,
            Block::Water | Block::Lava => PistonBehavior::Destroy,
            _ => PistonBehavior::Normal,
        };
        BlockState {
            block: self,
            piston_behavior: behavior,
            unbreakable: self == Block::Bedrock,
            has_block_entity: self == Block::PotentSulfur,
            extended: false,
            solid: full,
            sturdy: FaceSet { down: full, up: full, north: full, south: full, west: full, east: full },
            replaceable: self == Block::Air || self == Block::Water || self == Block::Lava,
        }
    }
}

impl BlockState {
    pub fn is_air(&self) -> (r: bool)
        ensures
            r == spec_is_air(*self),
    {
        self.block == Block::Air
    }

    /// Whether the given face offers full support.
    pub fn is_side_solid(&self, d: BlockDirection) -> (r: bool)
        ensures
            r == face_in(self.sturdy, d),
    {
        self.sturdy.contains(d)
    }

    /// Whether the centre of the given face can hold a small block such as a torch.
    pub fn is_center_solid(&self, d: BlockDirection) -> (r: bool)
        ensures
            r == face_in(self.sturdy, d),
    {
        self.sturdy.contains(d)
    }

    pub fn is_solid(&self) -> (r: bool)
        ensures
            r == self.solid,
    {
        self.solid
    }
}

/// A region of the world: the blocks that were set, every other position is air.
pub struct BlockWorld {
    pub entries: Vec<(BlockPos, BlockState)>,
}

/// The state at `p` in a list of settings, the latest one winning.
pub open spec fn lookup(entries: Seq<(BlockPos, BlockState)>, p: BlockPos) -> BlockState
    decreases entries.len(),
{
    if entries.len() == 0 {
        spec_default_state(Block::Air)
    } else if entries.last().0 == p {
        entries.last().1
    } else {
        lookup(entries.drop_last(), p)
    }
}

impl BlockWorld {
    pub open spec fn get_spec(&self, p: BlockPos) -> BlockState {
        lookup(self.entries@, p)
    }

    pub fn new() -> (r: BlockWorld)
        ensures
            forall|p: BlockPos| r.get_spec(p) == spec_default_state(Block::Air),
    {
        BlockWorld { entries: Vec::new() }
    }

    /// Puts the default state of `block` at `pos`.
    pub fn set_block(&mut self, pos: BlockPos, block: Block)
        ensures
            final(self).get_spec(pos) == spec_default_state(block),
            forall|p: BlockPos| p != pos ==> final(self).get_spec(p) == old(self).get_spec(p),
    {
        self.set_block_state(pos, block.default_state());
    }

    /// Puts `state` at `pos`.
    pub fn set_block_state(&mut self, pos: BlockPos, state: BlockState)
        ensures
            final(self).get_spec(pos) == state,
            forall|p: BlockPos| p != pos ==> final(self).get_spec(p) == old(self).get_spec(p),
    {
        let ghost old_entries = self.entries@;
        self.entries.push((pos, state));
        assert(self.entries@.drop_last() == old_entries);
    }

    pub fn get_block_state(&self, pos: &BlockPos) -> (r: BlockState)
        ensures
            r == self.get_spec(*pos),
    {
        let mut i = self.entries.len();
        assert(self.entries@.take(i as int) == self.entries@);
        while i > 0
            invariant
                i <= self.entries@.len(),
                lookup(self.entries@, *pos) == lookup(self.entries@.take(i as int), *pos),
            decreases i,
        {
            let e = &self.entries[i - 1];
            if e.0 == *pos {
                assert(self.entries@.take(i as int).last() == self.entries@[i - 1]);
                return e.1;
            }
            assert(self.entries@.take(i as int).drop_last() == self.entries@.take(i - 1));
            i = i - 1;
        }
        Block::Air.default_state()
    }

    pub fn get_block_and_state(&self, pos: &BlockPos) -> (r: (Block, BlockState))
        ensures
            r.1 == self.get_spec(*pos),
            r.0 == r.1.block,
    {
        let s = self.get_block_state(pos);
        (s.block, s)
    }

    pub fn get_block(&self, pos: &BlockPos) -> (r: Block)
        ensures
            r == self.get_spec(*pos).block,
    {
        self.get_block_state(pos).block
    }
}

} // verus!
