use vstd::prelude::*;

use crate::geometry::{bounded, BlockPos, COORD_LIMIT};
use crate::world::{Block, BlockWorld};

verus! {

/// The enchanting table: its power comes from the bookshelves in the ring two
/// blocks around it, on its level and the one above.
pub struct EnchantingTableBlock;

/// What the table's screen is opened with.
#[derive(Clone, Copy, Debug, PartialEq, Eq, Structural)]
pub struct EnchantingTableScreenFactory {
    pub bookshelf_count: i32,
    pub seed: i32,
}

/// The most bookshelves that count.
pub const MAX_BOOKSHELVES: i32 = 15;

/// Half of an offset in -2..=2, rounded towards zero.
pub open spec fn half_toward_zero(v: int) -> int {
    if v == 2 {
        1
    } else if v == -2 {
        -1
    } else {
        0
    }
}

pub open spec fn moved(p: BlockPos, dx: int, dy: int, dz: int) -> BlockPos {
    BlockPos { x: (p.x + dx) as i32, y: (p.y + dy) as i32, z: (p.z + dz) as i32 }
}

/// A bookshelf at offset (`dx`, `dy`, `dz`) from the table powers it when the
/// block halfway to it lets the power through.
pub open spec fn spec_valid_bookshelf(world: BlockWorld, table: BlockPos, dx: int, dy: int, dz: int) -> bool {
    &&& world.get_spec(moved(table, dx, dy, dz)).block == Block::Bookshelf
    &&& world.get_spec(
        moved(table, half_toward_zero(dx), dy, half_toward_zero(dz)),
    ).replaceable
}

/// The i-th of the 50 offsets tried, x outermost, then y, then z.
pub open spec fn offset_of(i: int) -> (int, int, int) {
    (i / 10 - 2, (i / 5) % 2, i % 5 - 2)
}

/// The number of powering bookshelves among the first `n` offsets that lie on
/// the ring (two blocks out along x or z).
pub open spec fn spec_shelves(world: BlockWorld, table: BlockPos, n: int) -> int
    decreases n,
{
    if n <= 0 {
        0
    } else {
        let (dx, dy, dz) = offset_of(n - 1);
        spec_shelves(world, table, n - 1) + if (dx == 2 || dx == -2 || dz == 2 || dz == -2)
            && spec_valid_bookshelf(world, table, dx, dy, dz) {
            1int
        } else {
            0int
        }
    }
}

proof fn lemma_offset_index(i: int)
    requires
        0 <= i < 50,
    ensures
        -2 <= offset_of(i).0 <= 2,
        0 <= offset_of(i).1 <= 1,
        -2 <= offset_of(i).2 <= 2,
        i == (offset_of(i).0 + 2) * 10 + offset_of(i).1 * 5 + (offset_of(i).2 + 2),
{
}

proof fn lemma_lone_shelf_prefix(world: BlockWorld, table: BlockPos, dx: int, dy: int, dz: int, n: int)
    requires
        -2 <= dx <= 2,
        0 <= dy <= 1,
        -2 <= dz <= 2,
        0 <= n <= 50,
        forall|ex: int, ey: int, ez: int|
            -2 <= ex <= 2 && 0 <= ey <= 1 && -2 <= ez <= 2 && !(ex == dx && ey == dy && ez == dz)
                ==> #[trigger] world.get_spec(moved(table, ex, ey, ez)).block != Block::Bookshelf,
    ensures
        spec_shelves(world, table, n) == if (dx + 2) * 10 + dy * 5 + (dz + 2) < n && (dx == 2
            || dx == -2 || dz == 2 || dz == -2) && spec_valid_bookshelf(world, table, dx, dy, dz) {
            1int
        } else {
            0int
        },
    decreases n,
{
    if n > 0 {
        lemma_lone_shelf_prefix(world, table, dx, dy, dz, n - 1);
        lemma_offset_index(n - 1);
        let (a, b, c) = offset_of(n - 1);
        if !(a == dx && b == dy && c == dz) {
            assert(world.get_spec(moved(table, a, b, c)).block != Block::Bookshelf);
        }
    }
}

/// A lone bookshelf (no other within two blocks across and one up) gives the
/// table one unit of power exactly when it stands two blocks out along x or
/// along z, on either side, on the table's level or the one above, with the
/// block halfway to it letting power through; anywhere else it gives none.
pub proof fn law_lone_bookshelf(world: BlockWorld, table: BlockPos, dx: int, dy: int, dz: int)
    requires
        -2 <= dx <= 2,
        0 <= dy <= 1,
        -2 <= dz <= 2,
        forall|ex: int, ey: int, ez: int|
            -2 <= ex <= 2 && 0 <= ey <= 1 && -2 <= ez <= 2 && !(ex == dx && ey == dy && ez == dz)
                ==> #[trigger] world.get_spec(moved(table, ex, ey, ez)).block != Block::Bookshelf,
    ensures
        spec_bookshelf_count(world, table) == if (dx * dx == 4 || dz * dz == 4)
            && spec_valid_bookshelf(world, table, dx, dy, dz) {
            1int
        } else {
            0int
        },
{
    lemma_lone_shelf_prefix(world, table, dx, dy, dz, 50);
    assert((dx * dx == 4) == (dx == 2 || dx == -2)) by (nonlinear_arith)
        requires
            -2 <= dx <= 2,
    ;
    assert((dz * dz == 4) == (dz == 2 || dz == -2)) by (nonlinear_arith)
        requires
            -2 <= dz <= 2,
    ;
}

pub open spec fn spec_bookshelf_count(world: BlockWorld, table: BlockPos) -> int {
    let c = spec_shelves(world, table, 50);
    if c > 15 {
        15
    } else {
        c
    }
}

fn half(v: i32) -> (r: i32)
    ensures
        r == half_toward_zero(v as int),
{
    if v == 2 {
        1
    } else if v == -2 {
        -1
    } else {
        0
    }
}

impl EnchantingTableBlock {
    /// Whether the block at offset (`dx`, `dy`, `dz`) is a bookshelf that
    /// powers the table (see `spec_valid_bookshelf`).
    pub fn is_valid_bookshelf(world: &BlockWorld, table: &BlockPos, dx: i32, dy: i32, dz: i32) -> (r:
        bool)
        requires
            bounded(*table, COORD_LIMIT as int),
            -2 <= dx <= 2,
            0 <= dy <= 1,
            -2 <= dz <= 2,
        ensures
            r == spec_valid_bookshelf(*world, *table, dx as int, dy as int, dz as int),
    {
        let shelf = BlockPos { x: table.x + dx, y: table.y + dy, z: table.z + dz };
        assert(shelf == moved(*table, dx as int, dy as int, dz as int));
        if world.get_block(&shelf) != Block::Bookshelf {
            return false;
        }
        let hx = half(dx);
        let hz = half(dz);
        let transmitter = BlockPos { x: table.x + hx, y: table.y + dy, z: table.z + hz };
        assert(transmitter == moved(*table, hx as int, dy as int, hz as int));
        world.get_block_state(&transmitter).replaceable
    }

    /// The number of powering bookshelves around the table, at most 15.
    pub fn bookshelf_count(world: &BlockWorld, table: &BlockPos) -> (r: i32)
        requires
            bounded(*table, COORD_LIMIT as int),
        ensures
            r == spec_bookshelf_count(*world, *table),
            0 <= r <= MAX_BOOKSHELVES,
    {
        let mut count: i32 = 0;
        let mut i: i32 = 0;
        while i < 50
            invariant
                0 <= i <= 50,
                bounded(*table, COORD_LIMIT as int),
                count == spec_shelves(*world, *table, i as int),
                0 <= count <= i,
            decreases 50 - i,
        {
            let dx = i / 10 - 2;
            let dy = (i / 5) % 2;
            let dz = i % 5 - 2;
            assert((dx as int, dy as int, dz as int) == offset_of(i as int));
            if (dx == 2 || dx == -2 || dz == 2 || dz == -2) && Self::is_valid_bookshelf(
                world,
                table,
                dx,
                dy,
                dz,
            ) {
                count = count + 1;
            }
            i = i + 1;
        }
        if count > MAX_BOOKSHELVES {
            MAX_BOOKSHELVES
        } else {
            count
        }
    }

    /// The screen the table opens: its bookshelf count and the player's
    /// enchantment seed.
    pub fn get_screen_handler_factory(world: &BlockWorld, table: &BlockPos, seed: i32) -> (r:
        EnchantingTableScreenFactory)
        requires
            bounded(*table, COORD_LIMIT as int),
        ensures
            r.bookshelf_count == spec_bookshelf_count(*world, *table),
            r.seed == seed,
    {
        EnchantingTableScreenFactory { bookshelf_count: Self::bookshelf_count(world, table), seed }
    }

    /// Using the table always succeeds (the screen opens).
    pub fn normal_use() -> (r: bool)
        ensures
            r,
    {
        true
    }

    /// Mobs do not path through the table.
    pub fn is_pathfindable() -> (r: bool)
        ensures
            !r,
    {
        false
    }
}

} // verus!
