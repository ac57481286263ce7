use vstd::prelude::*;

use crate::entity::Entity;
use crate::geometry::{bounded, BlockPos, COORD_LIMIT};
use crate::item::Item;
use crate::rng::random_range_i32;
use crate::world::{Block, BlockWorld};
use crate::zombie::{ZombieEntityBase, BABY_AGE};

verus! {

/// A villager's type, profession and level, by their numeric ids.
#[derive(Clone, Copy, Debug, PartialEq, Eq, Structural)]
pub struct VillagerData {
    pub type_id: i32,
    pub profession: i32,
    pub level: i32,
}

/// What a player's use of an item on a zombie villager did.
#[derive(Clone, Copy, Debug, PartialEq, Eq, Structural)]
pub enum CureInteraction {
    /// A weakened zombie villager took the golden apple (one used unless
    /// creative) and starts turning back into a villager.
    StartCure,
    /// The golden apple is taken up but does nothing.
    Ignored,
    /// Anything else: not handled.
    Pass,
}

pub struct ZombieVillagerEntity {
    pub entity: ZombieEntityBase,
    pub conversion_time: i32,
    pub conversion_starter: Option<u128>,
    pub villager_xp: i32,
    pub villager_data: VillagerData,
    pub villager_data_finalized: bool,
}

/// The blocks that speed a cure up: iron bars and beds.
pub open spec fn spec_is_booster(b: Block) -> bool {
    b == Block::IronBars || b == Block::Bed
}

/// The i-th of the 729 positions scanned around a curing zombie villager, x
/// outermost, then y, then z, each from -4 to 4.
pub open spec fn scan_pos(p: BlockPos, i: int) -> BlockPos {
    BlockPos {
        x: (p.x + (i / 81 - 4)) as i32,
        y: (p.y + ((i / 9) % 9 - 4)) as i32,
        z: (p.z + (i % 9 - 4)) as i32,
    }
}

/// The number of boosters among the first `n` scanned positions.
pub open spec fn spec_boosters(world: BlockWorld, p: BlockPos, n: int) -> int
    decreases n,
{
    if n <= 0 {
        0
    } else {
        spec_boosters(world, p, n - 1) + if spec_is_booster(world.get_spec(scan_pos(p, n - 1)).block) {
            1int
        } else {
            0int
        }
    }
}

/// The boosters that count: those found until the 14th, which stops the scan.
pub open spec fn spec_counted_boosters(world: BlockWorld, p: BlockPos) -> int {
    let c = spec_boosters(world, p, 729);
    if c > 14 {
        14
    } else {
        c
    }
}

proof fn lemma_boosters_monotone(world: BlockWorld, p: BlockPos, m: int, n: int)
    requires
        0 <= m <= n,
    ensures
        spec_boosters(world, p, m) <= spec_boosters(world, p, n),
    decreases n - m,
{
    if m < n {
        lemma_boosters_monotone(world, p, m, n - 1);
    }
}

/// The four numbers a UUID is saved as, most significant first.
pub open spec fn spec_uuid_words(u: u128) -> (i32, i32, i32, i32) {
    ((u >> 96) as i32, (u >> 64) as i32, (u >> 32) as i32, u as i32)
}

/// The UUID whose saved numbers are `a`, `b`, `c`, `d`.
pub open spec fn spec_uuid_from_words(a: i32, b: i32, c: i32, d: i32) -> u128 {
    ((a as u128) << 96u128) | ((b as u128 & 0xFFFF_FFFFu128) << 64u128) | ((c as u128
        & 0xFFFF_FFFFu128) << 32u128) | (d as u128 & 0xFFFF_FFFFu128)
}

/// The conversion time saved: the time left while curing, else -1.
pub open spec fn spec_saved_conversion_time(t: i32) -> i32 {
    if t > 0 {
        t
    } else {
        -1i32
    }
}

/// The conversion time and starter loaded from a saved time (-1 when
/// missing) and starter: a time other than -1 starts the cure with that
/// starter; -1 leaves the villager not curing, its starter unchanged.
pub open spec fn spec_loaded_conversion(old_starter: Option<u128>, time: Option<i32>, starter: Option<u128>) -> (i32, Option<u128>) {
    let t = match time {
        Some(v) => v,
        None => -1i32,
    };
    if t != -1 {
        (t, starter)
    } else {
        (-1i32, old_starter)
    }
}

/// A saved cure loads back as it was: a curing zombie villager keeps its
/// time left and the player who started the cure; one not curing stays so.
pub proof fn law_conversion_round_trip(time: i32, starter: Option<u128>, other_starter: Option<u128>)
    ensures
        time > 0 ==> spec_loaded_conversion(other_starter, Some(spec_saved_conversion_time(time)), starter) == (time, starter),
        time <= 0 ==> spec_loaded_conversion(other_starter, Some(spec_saved_conversion_time(time)), starter).0 <= 0,
{
}

impl ZombieVillagerEntity {
    /// A zombie villager with the given villager data at level 1, not curing.
    pub fn new(entity: Entity, type_id: i32, profession: i32) -> (r: ZombieVillagerEntity)
        ensures
            r.entity.entity == entity,
            !r.entity.can_break_doors,
            r.conversion_time == -1,
            r.conversion_starter is None,
            r.villager_xp == 0,
            r.villager_data == (VillagerData { type_id, profession, level: 1 }),
            !r.villager_data_finalized,
    {
        Self::with_can_break_doors(entity, false, type_id, profession)
    }

    pub fn with_can_break_doors(entity: Entity, can_break_doors: bool, type_id: i32, profession: i32) -> (r:
        ZombieVillagerEntity)
        ensures
            r.entity.entity == entity,
            r.entity.can_break_doors == can_break_doors,
            r.conversion_time == -1,
            r.conversion_starter is None,
            r.villager_xp == 0,
            r.villager_data == (VillagerData { type_id, profession, level: 1 }),
            !r.villager_data_finalized,
    {
        ZombieVillagerEntity {
            entity: ZombieEntityBase::with_can_break_doors(entity, can_break_doors),
            conversion_time: -1,
            conversion_starter: None,
            villager_xp: 0,
            villager_data: VillagerData { type_id, profession, level: 1 },
            villager_data_finalized: false,
        }
    }

    pub fn set_villager_data(&mut self, data: VillagerData)
        ensures
            final(self).villager_data == data,
            final(self).conversion_time == old(self).conversion_time,
            final(self).entity.entity == old(self).entity.entity,
    {
        self.villager_data = data;
    }

    pub fn is_baby(&self) -> (r: bool)
        ensures
            r == (self.entity.entity.age < 0),
    {
        self.entity.entity.age < 0
    }

    /// A baby has age -24000, a grown one 0.
    pub fn set_baby(&mut self, baby: bool)
        ensures
            final(self).entity.entity.age == if baby {
                BABY_AGE
            } else {
                0
            },
            final(self).entity.entity.entity_id == old(self).entity.entity.entity_id,
            final(self).conversion_time == old(self).conversion_time,
    {
        self.entity.entity.age = if baby {
            BABY_AGE
        } else {
            0
        };
    }

    /// A zombie villager is curing while its conversion time is positive.
    pub fn is_converting(&self) -> (r: bool)
        ensures
            r == (self.conversion_time > 0),
    {
        self.conversion_time > 0
    }

    /// Starts the cure: it takes `time` ticks and remembers who started it
    /// (the weakness gives way to strength for that long).
    pub fn start_converting(&mut self, player: Option<u128>, time: i32)
        ensures
            final(self).conversion_starter == player,
            final(self).conversion_time == time,
            final(self).villager_data == old(self).villager_data,
            final(self).villager_xp == old(self).villager_xp,
            final(self).entity.entity == old(self).entity.entity,
    {
        self.conversion_starter = player;
        self.conversion_time = time;
    }

    /// The iron bars and beds within four blocks (in each axis) of `pos`, up to
    /// 14; each may speed the cure up.
    pub fn count_conversion_boosters(world: &BlockWorld, pos: &BlockPos) -> (r: i32)
        requires
            bounded(*pos, COORD_LIMIT as int),
        ensures
            r == spec_counted_boosters(*world, *pos),
    {
        let mut count: i32 = 0;
        let mut i: i32 = 0;
        while i < 729
            invariant
                0 <= i <= 729,
                bounded(*pos, COORD_LIMIT as int),
                count == spec_boosters(*world, *pos, i as int),
                count <= 14,
            decreases 729 - i,
        {
            if count >= 14 {
                proof {
                    lemma_boosters_monotone(*world, *pos, i as int, 729);
                }
                return 14;
            }
            let p = BlockPos { x: pos.x + (i / 81 - 4), y: pos.y + ((i / 9) % 9 - 4), z: pos.z + (i % 9 - 4) };
            assert(p == scan_pos(*pos, i as int));
            let b = world.get_block(&p);
            if b == Block::IronBars || b == Block::Bed {
                count = count + 1;
            }
            i = i + 1;
        }
        count
    }

    /// A tick: a living curing zombie villager advances its cure by
    /// `progress` (one plus the boosters that hit); the cure finishes (answer
    /// `true`, conversion time back to -1) when no more than that is left.
    pub fn conversion_step(&mut self, alive: bool, progress: i32) -> (r: bool)
        requires
            progress >= 1,
        ensures
            r == (alive && old(self).conversion_time > 0 && old(self).conversion_time <= progress),
            final(self).conversion_time == if r {
                -1
            } else if alive && old(self).conversion_time > 0 {
                old(self).conversion_time - progress
            } else {
                old(self).conversion_time as int
            },
            final(self).conversion_starter == old(self).conversion_starter,
            final(self).villager_data == old(self).villager_data,
    {
        if self.is_converting() && alive {
            if self.conversion_time <= progress {
                self.conversion_time = -1;
                return true;
            }
            self.conversion_time = self.conversion_time - progress;
        }
        false
    }

    /// The villager's reputation with the player who cured it: 20 major and
    /// 25 minor positive points more, each capped at its type's maximum.
    pub fn cure_gossip(major: i32, minor: i32, major_max: i32, minor_max: i32) -> (r: (i32, i32))
        requires
            major <= i32::MAX - 20,
            minor <= i32::MAX - 25,
        ensures
            r.0 == if major + 20 < major_max {
                major + 20
            } else {
                major_max as int
            },
            r.1 == if minor + 25 < minor_max {
                minor + 25
            } else {
                minor_max as int
            },
    {
        let a = major + 20;
        let b = minor + 25;
        (if a < major_max {
            a
        } else {
            major_max
        }, if b < minor_max {
            b
        } else {
            minor_max
        })
    }

    /// A golden apple (`roll` the cure time drawn from 3600..=6000) starts the
    /// cure of a weakened zombie villager that is not already curing; it is
    /// taken up either way.
    pub fn mob_interact_with(&mut self, item: Item, player: u128, weakened: bool, roll: i32) -> (r:
        CureInteraction)
        ensures
            item != Item::GoldenApple ==> r == CureInteraction::Pass && final(self).conversion_time
                == old(self).conversion_time && final(self).conversion_starter == old(self).conversion_starter,
            item == Item::GoldenApple && weakened && old(self).conversion_time <= 0 ==> r
                == CureInteraction::StartCure && final(self).conversion_time == roll
                && final(self).conversion_starter == Some(player),
            item == Item::GoldenApple && !(weakened && old(self).conversion_time <= 0) ==> r
                == CureInteraction::Ignored && final(self).conversion_time == old(self).conversion_time && final(self).conversion_starter == old(self).conversion_starter,
            final(self).villager_data == old(self).villager_data,
            final(self).entity.entity == old(self).entity.entity,
    {
        if item == Item::GoldenApple {
            if weakened && !self.is_converting() {
                self.start_converting(Some(player), roll);
                return CureInteraction::StartCure;
            }
            return CureInteraction::Ignored;
        }
        CureInteraction::Pass
    }

    /// As `mob_interact_with`, drawing the cure time from 3600..=6000.
    pub fn mob_interact(&mut self, item: Item, player: u128, weakened: bool) -> (r: CureInteraction)
        ensures
            r == if item != Item::GoldenApple {
                CureInteraction::Pass
            } else if weakened && old(self).conversion_time <= 0 {
                CureInteraction::StartCure
            } else {
                CureInteraction::Ignored
            },
            r == CureInteraction::StartCure ==> 3600 <= final(self).conversion_time <= 6000,
    {
        let roll = if item == Item::GoldenApple && weakened && !self.is_converting() {
            random_range_i32(3600, 6001)
        } else {
            0
        };
        self.mob_interact_with(item, player, weakened, roll)
    }

    /// A zombie villager that is not curing and was never traded with may
    /// despawn.
    pub fn remove_when_far_away(&self) -> (r: bool)
        ensures
            r == (self.conversion_time <= 0 && self.villager_xp == 0),
    {
        !self.is_converting() && self.villager_xp == 0
    }

    /// The conversion time to save: -1 unless curing.
    pub fn saved_conversion_time(&self) -> (r: i32)
        ensures
            r == spec_saved_conversion_time(self.conversion_time),
    {
        if self.is_converting() {
            self.conversion_time
        } else {
            -1
        }
    }

    /// Loads the saved villager data (missing numbers default to type 2,
    /// profession 0, level 1).
    pub fn saved_villager_data(type_id: Option<i32>, profession: Option<i32>, level: Option<i32>) -> (r:
        VillagerData)
        ensures
            r.type_id == match type_id {
                Some(v) => v,
                None => 2,
            },
            r.profession == match profession {
                Some(v) => v,
                None => 0,
            },
            r.level == match level {
                Some(v) => v,
                None => 1,
            },
    {
        VillagerData {
            type_id: match type_id {
                Some(v) => v,
                None => 2,
            },
            profession: match profession {
                Some(v) => v,
                None => 0,
            },
            level: match level {
                Some(v) => v,
                None => 1,
            },
        }
    }

    /// Loads the saved cure: a conversion time other than -1 (a missing one is
    /// -1) restarts the cure with the saved starter; otherwise none runs.
    pub fn read_saved_conversion(&mut self, time: Option<i32>, starter: Option<u128>)
        ensures
            (final(self).conversion_time, final(self).conversion_starter) == spec_loaded_conversion(
                old(self).conversion_starter,
                time,
                starter,
            ),
            final(self).villager_data == old(self).villager_data,
    {
        let t = match time {
            Some(v) => v,
            None => -1,
        };
        if t != -1 {
            self.start_converting(starter, t);
        } else {
            self.conversion_time = -1;
        }
    }
}

/// The four numbers a UUID is saved as, most significant first.
pub fn uuid_to_words(u: u128) -> (r: [i32; 4])
    ensures
        r@ == seq![spec_uuid_words(u).0, spec_uuid_words(u).1, spec_uuid_words(u).2, spec_uuid_words(u).3],
{
    [(u >> 96) as i32, (u >> 64) as i32, (u >> 32) as i32, u as i32]
}

/// The UUID saved as four numbers; `None` unless there are exactly four.
pub fn words_to_uuid(words: &Vec<i32>) -> (r: Option<u128>)
    ensures
        words@.len() != 4 ==> r is None,
        words@.len() == 4 ==> r == Some(
            spec_uuid_from_words(words@[0], words@[1], words@[2], words@[3]),
        ),
{
    if words.len() != 4 {
        return None;
    }
    let a = words[0] as u128;
    let b = words[1] as u128 & 0xFFFF_FFFF;
    let c = words[2] as u128 & 0xFFFF_FFFF;
    let d = words[3] as u128 & 0xFFFF_FFFF;
    Some((a << 96) | (b << 64) | (c << 32) | d)
}

/// A UUID saved as four numbers reads back as itself.
pub proof fn law_uuid_words_round_trip(u: u128)
    ensures
        ({
            let w = spec_uuid_words(u);
            spec_uuid_from_words(w.0, w.1, w.2, w.3) == u
        }),
{
    assert((((u >> 96) as i32 as u128) << 96u128) | ((((u >> 64) as i32 as u128)
        & 0xFFFF_FFFFu128) << 64u128) | ((((u >> 32) as i32 as u128) & 0xFFFF_FFFFu128)
        << 32u128) | (((u as i32) as u128) & 0xFFFF_FFFFu128) == u) by (bit_vector);
}

} // verus!
