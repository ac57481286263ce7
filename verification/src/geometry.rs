use vstd::prelude::*;

verus! {

/// The largest absolute value a coordinate of a block position may take where
/// the library offsets it.  Minecraft worlds end well inside this bound.
pub const COORD_LIMIT: i32 = 1_000_000_000;

/// One of the six faces of a block, in the order the game indexes them.
#[derive(Clone, Copy, Debug, PartialEq, Eq, Structural)]
pub enum BlockDirection {
    Down,
    Up,
    North,
    South,
    West,
    East,
}

/// The axis a direction runs along.
#[derive(Clone, Copy, Debug, PartialEq, Eq, Structural)]
pub enum Axis {
    X,
    Y,
    Z,
}

/// A horizontal facing, as stored in the state of wall-mounted blocks.
#[derive(Clone, Copy, Debug, PartialEq, Eq, Structural)]
pub enum HorizontalFacing {
    North,
    South,
    West,
    East,
}

/// An integer block position.
#[derive(Clone, Copy, Debug, PartialEq, Eq, Structural)]
pub struct BlockPos {
    pub x: i32,
    pub y: i32,
    pub z: i32,
}

pub open spec fn dir_dx(d: BlockDirection) -> int {
    match d {
        BlockDirection::West => -1,
        BlockDirection::East => 1,
        _ => 0,
    }
}

pub open spec fn dir_dy(d: BlockDirection) -> int {
    match d {
        BlockDirection::Down => -1,
        BlockDirection::Up => 1,
        _ => 0,
    }
}

pub open spec fn dir_dz(d: BlockDirection) -> int {
    match d {
        BlockDirection::North => -1,
        BlockDirection::South => 1,
        _ => 0,
    }
}

pub open spec fn spec_opposite(d: BlockDirection) -> BlockDirection {
    match d {
        BlockDirection::Down => BlockDirection::Up,
        BlockDirection::Up => BlockDirection::Down,
        BlockDirection::North => BlockDirection::South,
        BlockDirection::South => BlockDirection::North,
        BlockDirection::West => BlockDirection::East,
        BlockDirection::East => BlockDirection::West,
    }
}

pub open spec fn spec_axis(d: BlockDirection) -> Axis {
    match d {
        BlockDirection::Down | BlockDirection::Up => Axis::Y,
        BlockDirection::North | BlockDirection::South => Axis::Z,
        BlockDirection::West | BlockDirection::East => Axis::X,
    }
}

pub open spec fn spec_facing_direction(f: HorizontalFacing) -> BlockDirection {
    match f {
        HorizontalFacing::North => BlockDirection::North,
        HorizontalFacing::South => BlockDirection::South,
        HorizontalFacing::West => BlockDirection::West,
        HorizontalFacing::East => BlockDirection::East,
    }
}

/// The position `n` steps from `p` towards `d`, computed over the integers.
pub open spec fn spec_offset(p: BlockPos, d: BlockDirection, n: int) -> BlockPos {
    match d {
        BlockDirection::Down => BlockPos { x: p.x, y: (p.y - n) as i32, z: p.z },
        BlockDirection::Up => BlockPos { x: p.x, y: (p.y + n) as i32, z: p.z },
        BlockDirection::North => BlockPos { x: p.x, y: p.y, z: (p.z - n) as i32 },
        BlockDirection::South => BlockPos { x: p.x, y: p.y, z: (p.z + n) as i32 },
        BlockDirection::West => BlockPos { x: (p.x - n) as i32, y: p.y, z: p.z },
        BlockDirection::East => BlockPos { x: (p.x + n) as i32, y: p.y, z: p.z },
    }
}

pub open spec fn face_is_horizontal(d: BlockDirection) -> bool {
    d != BlockDirection::Up && d != BlockDirection::Down
}

/// Every coordinate of `p` lies within `r` of the matching coordinate of `c`.
pub open spec fn near(p: BlockPos, c: BlockPos, r: int) -> bool {
    &&& c.x - r <= p.x <= c.x + r
    &&& c.y - r <= p.y <= c.y + r
    &&& c.z - r <= p.z <= c.z + r
}

/// Every coordinate of `p` is at most `limit` in absolute value.
pub open spec fn bounded(p: BlockPos, limit: int) -> bool {
    &&& -limit <= p.x <= limit
    &&& -limit <= p.y <= limit
    &&& -limit <= p.z <= limit
}

/// Every neighbour of `p` has coordinates within `i32`.
pub open spec fn has_neighbours(p: BlockPos) -> bool {
    &&& i32::MIN < p.x < i32::MAX
    &&& i32::MIN < p.y < i32::MAX
    &&& i32::MIN < p.z < i32::MAX
}

impl BlockDirection {
    /// The index the game gives this direction (Down = 0 ... East = 5).
    pub fn to_index(self) -> (r: usize)
        ensures
            r == match self {
                BlockDirection::Down => 0usize,
                BlockDirection::Up => 1,
                BlockDirection::North => 2,
                BlockDirection::South => 3,
                BlockDirection::West => 4,
                BlockDirection::East => 5,
            },
    {
        match self {
            BlockDirection::Down => 0,
            BlockDirection::Up => 1,
            BlockDirection::North => 2,
            BlockDirection::South => 3,
            BlockDirection::West => 4,
            BlockDirection::East => 5,
        }
    }

    pub fn opposite(self) -> (r: BlockDirection)
        ensures
            r == spec_opposite(self),
    {
        match self {
            BlockDirection::Down => BlockDirection::Up,
            BlockDirection::Up => BlockDirection::Down,
            BlockDirection::North => BlockDirection::South,
            BlockDirection::South => BlockDirection::North,
            BlockDirection::West => BlockDirection::East,
            BlockDirection::East => BlockDirection::West,
        }
    }

    pub fn to_axis(self) -> (r: Axis)
        ensures
            r == spec_axis(self),
    {
        match self {
            BlockDirection::Down | BlockDirection::Up => Axis::Y,
            BlockDirection::North | BlockDirection::South => Axis::Z,
            BlockDirection::West | BlockDirection::East => Axis::X,
        }
    }

    /// The unit step of this direction.
    pub fn to_offset(self) -> (r: (i32, i32, i32))
        ensures
            r.0 == dir_dx(self),
            r.1 == dir_dy(self),
            r.2 == dir_dz(self),
    {
        match self {
            BlockDirection::Down => (0, -1, 0),
            BlockDirection::Up => (0, 1, 0),
            BlockDirection::North => (0, 0, -1),
            BlockDirection::South => (0, 0, 1),
            BlockDirection::West => (-1, 0, 0),
            BlockDirection::East => (1, 0, 0),
        }
    }

    /// All six directions, in index order.
    pub fn all() -> (r: [BlockDirection; 6])
        ensures
            r@ == seq![
                BlockDirection::Down,
                BlockDirection::Up,
                BlockDirection::North,
                BlockDirection::South,
                BlockDirection::West,
                BlockDirection::East,
            ],
    {
        [
            BlockDirection::Down,
            BlockDirection::Up,
            BlockDirection::North,
            BlockDirection::South,
            BlockDirection::West,
            BlockDirection::East,
        ]
    }

    /// The horizontal facing of a horizontal direction, `None` for up and down.
    pub fn to_horizontal_facing(self) -> (r: Option<HorizontalFacing>)
        ensures
            r is None <==> (self == BlockDirection::Up || self == BlockDirection::Down),
            r matches Some(f) ==> spec_facing_direction(f) == self,
    {
        match self {
            BlockDirection::North => Some(HorizontalFacing::North),
            BlockDirection::South => Some(HorizontalFacing::South),
            BlockDirection::West => Some(HorizontalFacing::West),
            BlockDirection::East => Some(HorizontalFacing::East),
            _ => None,
        }
    }
}

impl HorizontalFacing {
    pub fn to_block_direction(self) -> (r: BlockDirection)
        ensures
            r == spec_facing_direction(self),
    {
        match self {
            HorizontalFacing::North => BlockDirection::North,
            HorizontalFacing::South => BlockDirection::South,
            HorizontalFacing::West => BlockDirection::West,
            HorizontalFacing::East => BlockDirection::East,
        }
    }

    pub fn opposite(self) -> (r: HorizontalFacing)
        ensures
            spec_facing_direction(r) == spec_opposite(spec_facing_direction(self)),
    {
        match self {
            HorizontalFacing::North => HorizontalFacing::South,
            HorizontalFacing::South => HorizontalFacing::North,
            HorizontalFacing::West => HorizontalFacing::East,
            HorizontalFacing::East => HorizontalFacing::West,
        }
    }
}

impl BlockPos {
    pub fn new(x: i32, y: i32, z: i32) -> (r: BlockPos)
        ensures
            r == (BlockPos { x, y, z }),
    {
        BlockPos { x, y, z }
    }

    /// The neighbouring position towards `dir`.
    pub fn offset(&self, dir: BlockDirection) -> (r: BlockPos)
        requires
            has_neighbours(*self),
        ensures
            r == spec_offset(*self, dir, 1),
    {
        match dir {
            BlockDirection::Down => BlockPos { x: self.x, y: self.y - 1, z: self.z },
            BlockDirection::Up => BlockPos { x: self.x, y: self.y + 1, z: self.z },
            BlockDirection::North => BlockPos { x: self.x, y: self.y, z: self.z - 1 },
            BlockDirection::South => BlockPos { x: self.x, y: self.y, z: self.z + 1 },
            BlockDirection::West => BlockPos { x: self.x - 1, y: self.y, z: self.z },
            BlockDirection::East => BlockPos { x: self.x + 1, y: self.y, z: self.z },
        }
    }

    /// The position `n` steps towards `dir`.
    pub fn offset_dir(&self, dir: BlockDirection, n: i32) -> (r: BlockPos)
        requires
            bounded(*self, 2_000_000_000),
            -100_000_000 <= n <= 100_000_000,
        ensures
            r == spec_offset(*self, dir, n as int),
    {
        match dir {
            BlockDirection::Down => BlockPos { x: self.x, y: self.y - n, z: self.z },
            BlockDirection::Up => BlockPos { x: self.x, y: self.y + n, z: self.z },
            BlockDirection::North => BlockPos { x: self.x, y: self.y, z: self.z - n },
            BlockDirection::South => BlockPos { x: self.x, y: self.y, z: self.z + n },
            BlockDirection::West => BlockPos { x: self.x - n, y: self.y, z: self.z },
            BlockDirection::East => BlockPos { x: self.x + n, y: self.y, z: self.z },
        }
    }

    pub fn down(&self) -> (r: BlockPos)
        requires
            bounded(*self, 2_000_000_000),
        ensures
            r == spec_offset(*self, BlockDirection::Down, 1),
    {
        self.offset(BlockDirection::Down)
    }

    pub fn up(&self) -> (r: BlockPos)
        requires
            bounded(*self, 2_000_000_000),
        ensures
            r == spec_offset(*self, BlockDirection::Up, 1),
    {
        self.offset(BlockDirection::Up)
    }

    /// The position moved by the given amounts along each axis.
    pub fn add(&self, dx: i32, dy: i32, dz: i32) -> (r: BlockPos)
        requires
            i32::MIN <= self.x + dx <= i32::MAX,
            i32::MIN <= self.y + dy <= i32::MAX,
            i32::MIN <= self.z + dz <= i32::MAX,
        ensures
            r.x == self.x + dx,
            r.y == self.y + dy,
            r.z == self.z + dz,
    {
        BlockPos { x: self.x + dx, y: self.y + dy, z: self.z + dz }
    }
}

} // verus!
