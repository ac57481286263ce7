use vstd::prelude::*;

use crate::geometry::{bounded, BlockPos, COORD_LIMIT};
use crate::rng::random_range_i32;
use crate::world::{spec_is_air, BlockWorld};

verus! {

/// The experience a vex gives.
pub const VEX_XP_REWARD: u32 = 3;

/// The parts of a vex that its rules read and write (the point it flies to is
/// a point in space and stays with the caller; the rules only ask whether it
/// has one).
#[derive(Clone, Copy, Debug, PartialEq, Eq, Structural)]
pub struct VexEntity {
    pub is_charging: bool,
    pub has_limited_life: bool,
    pub limited_life_ticks: i32,
    pub bound_origin: Option<BlockPos>,
    pub owner_uuid: Option<u128>,
    pub ambient_sound_timer: i32,
}

/// A mob near a vex, as the vex sees it when it looks for its owner.
#[derive(Clone, Copy, Debug, PartialEq, Eq, Structural)]
pub struct NearbyMob {
    pub uuid: u128,
    /// Whether the mob's target is alive (`None` without a target or for
    /// entities that are no mobs).
    pub target_alive: Option<bool>,
}

/// What a charge tick does.
#[derive(Clone, Copy, Debug, PartialEq, Eq, Structural)]
pub enum ChargeTick {
    /// The vex reached its target: it attacks and stops charging.
    Strike,
    /// The target is within three blocks: the vex aims at it anew.
    Retarget,
    /// The vex flies on.
    FlyOn,
}

impl VexEntity {
    /// A vex spawned in block `bound`: bound to it, not charging, with no
    /// limited life and no owner, its idle-sound timer drawn from 80..160.
    pub fn new(bound: BlockPos) -> (r: VexEntity)
        ensures
            !r.is_charging,
            !r.has_limited_life,
            r.limited_life_ticks == 0,
            r.bound_origin == Some(bound),
            r.owner_uuid is None,
            80 <= r.ambient_sound_timer < 160,
    {
        VexEntity {
            is_charging: false,
            has_limited_life: false,
            limited_life_ticks: 0,
            bound_origin: Some(bound),
            owner_uuid: None,
            ambient_sound_timer: random_range_i32(80, 160),
        }
    }

    pub fn is_charging(&self) -> (r: bool)
        ensures
            r == self.is_charging,
    {
        self.is_charging
    }

    /// Sets the charging flag; answers the flag byte sent to clients.
    pub fn set_charging(&mut self, charging: bool) -> (r: u8)
        ensures
            *final(self) == (VexEntity { is_charging: charging, ..*old(self) }),
            r == if charging {
                1u8
            } else {
                0u8
            },
    {
        self.is_charging = charging;
        if charging {
            1
        } else {
            0
        }
    }

    pub fn has_limited_life(&self) -> (r: bool)
        ensures
            r == self.has_limited_life,
    {
        self.has_limited_life
    }

    pub fn get_limited_life_ticks(&self) -> (r: i32)
        ensures
            r == self.limited_life_ticks,
    {
        self.limited_life_ticks
    }

    /// Gives the vex a limited life of `life_ticks`.
    pub fn set_limited_life(&mut self, life_ticks: i32)
        ensures
            *final(self) == (VexEntity {
                has_limited_life: true,
                limited_life_ticks: life_ticks,
                ..*old(self)
            }),
    {
        self.has_limited_life = true;
        self.limited_life_ticks = life_ticks;
    }

    pub fn get_bound_origin(&self) -> (r: Option<BlockPos>)
        ensures
            r == self.bound_origin,
    {
        self.bound_origin
    }

    pub fn set_bound_origin(&mut self, pos: Option<BlockPos>)
        ensures
            *final(self) == (VexEntity { bound_origin: pos, ..*old(self) }),
    {
        self.bound_origin = pos;
    }

    pub fn get_owner_uuid(&self) -> (r: Option<u128>)
        ensures
            r == self.owner_uuid,
    {
        self.owner_uuid
    }

    pub fn set_owner_uuid(&mut self, uuid: Option<u128>)
        ensures
            *final(self) == (VexEntity { owner_uuid: uuid, ..*old(self) }),
    {
        self.owner_uuid = uuid;
    }

    /// A vex with a limited life loses a tick of it; when none is left it is
    /// hurt (answer `true`) and the count restarts at 20.
    pub fn tick_life(&mut self) -> (r: bool)
        requires
            old(self).limited_life_ticks > i32::MIN,
        ensures
            !old(self).has_limited_life ==> !r && *final(self) == *old(self),
            old(self).has_limited_life ==> r == (old(self).limited_life_ticks - 1 <= 0)
                && *final(self) == (VexEntity {
                limited_life_ticks: if r {
                    20
                } else {
                    (old(self).limited_life_ticks - 1) as i32
                },
                ..*old(self)
            }),
    {
        if !self.has_limited_life {
            return false;
        }
        self.limited_life_ticks = self.limited_life_ticks - 1;
        if self.limited_life_ticks <= 0 {
            self.limited_life_ticks = 20;
            true
        } else {
            false
        }
    }

    /// The idle sound: the timer runs down; when it was at zero or below the
    /// sound plays and the timer is drawn anew from 100..200.
    pub fn tick_ambient(&mut self) -> (r: bool)
        requires
            old(self).ambient_sound_timer > i32::MIN,
        ensures
            r == (old(self).ambient_sound_timer <= 0),
            r ==> 100 <= final(self).ambient_sound_timer < 200,
            !r ==> final(self).ambient_sound_timer == old(self).ambient_sound_timer - 1,
            *final(self) == (VexEntity {
                ambient_sound_timer: final(self).ambient_sound_timer,
                ..*old(self)
            }),
    {
        let time = self.ambient_sound_timer;
        self.ambient_sound_timer = time - 1;
        if time <= 0 {
            self.ambient_sound_timer = random_range_i32(100, 200);
            true
        } else {
            false
        }
    }

    /// The bound position to load: a three-number `bound_pos` array wins when
    /// it is present (another length loads nothing); without it, the three
    /// `BoundX`, `BoundY`, `BoundZ` numbers when all are there.
    pub fn saved_bound(array: Option<&Vec<i32>>, x: Option<i32>, y: Option<i32>, z: Option<i32>) -> (r:
        Option<BlockPos>)
        ensures
            r == spec_saved_bound(
                match array {
                    Some(a) => Some(a@),
                    None => None,
                },
                x,
                y,
                z,
            ),
    {
        match array {
            Some(a) => if a.len() == 3 {
                Some(BlockPos { x: a[0], y: a[1], z: a[2] })
            } else {
                None
            },
            None => match (x, y, z) {
                (Some(x), Some(y), Some(z)) => Some(BlockPos { x, y, z }),
                _ => None,
            },
        }
    }

    /// Loads saved data: the bound position (see `saved_bound`) when found,
    /// the life ticks (`life_ticks`, else `LifeTicks`) as a limited life, and
    /// the owner (`owner`, else `Owner`).
    pub fn read_saved(
        &mut self,
        bound: Option<BlockPos>,
        life_ticks: Option<i32>,
        legacy_life_ticks: Option<i32>,
        owner: Option<u128>,
        legacy_owner: Option<u128>,
    )
        ensures
            final(self).bound_origin == match bound {
                Some(b) => Some(b),
                None => old(self).bound_origin,
            },
            ({
                let life = match life_ticks {
                    Some(t) => Some(t),
                    None => legacy_life_ticks,
                };
                match life {
                    Some(t) => final(self).has_limited_life && final(self).limited_life_ticks == t,
                    None => final(self).has_limited_life == old(self).has_limited_life
                        && final(self).limited_life_ticks == old(self).limited_life_ticks,
                }
            }),
            final(self).owner_uuid == match owner {
                Some(o) => Some(o),
                None => match legacy_owner {
                    Some(o) => Some(o),
                    None => old(self).owner_uuid,
                },
            },
            final(self).is_charging == old(self).is_charging,
            final(self).ambient_sound_timer == old(self).ambient_sound_timer,
    {
        if let Some(b) = bound {
            self.bound_origin = Some(b);
        }
        let life = match life_ticks {
            Some(t) => Some(t),
            None => legacy_life_ticks,
        };
        if let Some(t) = life {
            self.set_limited_life(t);
        }
        let o = match owner {
            Some(o) => Some(o),
            None => legacy_owner,
        };
        if let Some(o) = o {
            self.owner_uuid = Some(o);
        }
    }
}

/// The bound position loaded from a saved `bound_pos` array (which wins when
/// present) or from the saved `BoundX`, `BoundY`, `BoundZ` numbers.
pub open spec fn spec_saved_bound(array: Option<Seq<i32>>, x: Option<i32>, y: Option<i32>, z: Option<i32>) -> Option<BlockPos> {
    match array {
        Some(a) => if a.len() == 3 {
            Some(BlockPos { x: a[0], y: a[1], z: a[2] })
        } else {
            None
        },
        None => match (x, y, z) {
            (Some(x), Some(y), Some(z)) => Some(BlockPos { x, y, z }),
            _ => None,
        },
    }
}

/// A saved bound position loads back as it was, written both as an array and
/// as three numbers and read from the array or, failing it, the numbers.
pub proof fn law_vex_bound_round_trip(bound: BlockPos)
    ensures
        spec_saved_bound(Some(seq![bound.x, bound.y, bound.z]), Some(bound.x), Some(bound.y), Some(bound.z)) == Some(bound),
        spec_saved_bound(None, Some(bound.x), Some(bound.y), Some(bound.z)) == Some(bound),
{
}

/// The dive of a vex at its target.
pub struct VexChargeAttackGoal;

impl VexChargeAttackGoal {
    /// A charge starts, with a one-in-seven `roll` of 0, when the vex has no
    /// point to fly to, its target lives, and the target is more than two
    /// blocks away.
    pub fn can_start_with_roll(has_wanted: bool, target_alive: Option<bool>, roll: i32, far: bool) -> (r:
        bool)
        ensures
            r == (!has_wanted && target_alive == Some(true) && roll == 0 && far),
    {
        if has_wanted {
            return false;
        }
        match target_alive {
            Some(true) => roll == 0 && far,
            _ => false,
        }
    }

    /// As `can_start_with_roll`, drawing the roll from 0..7 once the vex is
    /// free and its target lives.  A charge never starts otherwise.
    pub fn can_start(has_wanted: bool, target_alive: Option<bool>, far: bool) -> (r: bool)
        ensures
            r ==> !has_wanted && target_alive == Some(true) && far,
    {
        if has_wanted || target_alive != Some(true) {
            return false;
        }
        let roll = random_range_i32(0, 7);
        Self::can_start_with_roll(has_wanted, target_alive, roll, far)
    }

    /// The charge goes on while the vex charges towards a point and its target
    /// lives.
    pub fn should_continue(vex: &VexEntity, has_wanted: bool, target_alive: Option<bool>) -> (r:
        bool)
        ensures
            r == (vex.is_charging && has_wanted && target_alive == Some(true)),
    {
        vex.is_charging && has_wanted && target_alive == Some(true)
    }

    /// Starting a charge sets the charging flag (the vex then aims just above
    /// its target).
    pub fn start(vex: &mut VexEntity) -> (r: u8)
        ensures
            *final(vex) == (VexEntity { is_charging: true, ..*old(vex) }),
            r == 1,
    {
        vex.set_charging(true)
    }

    /// Stopping clears the charging flag.
    pub fn stop(vex: &mut VexEntity) -> (r: u8)
        ensures
            *final(vex) == (VexEntity { is_charging: false, ..*old(vex) }),
            r == 0,
    {
        vex.set_charging(false)
    }

    /// A charge tick: touching the target strikes it and ends the charge;
    /// within three blocks the vex aims anew; otherwise it flies on.
    pub fn tick(vex: &mut VexEntity, touching: bool, within_three: bool) -> (r: ChargeTick)
        ensures
            r == if touching {
                ChargeTick::Strike
            } else if within_three {
                ChargeTick::Retarget
            } else {
                ChargeTick::FlyOn
            },
            *final(vex) == if touching {
                VexEntity { is_charging: false, ..*old(vex) }
            } else {
                *old(vex)
            },
    {
        if touching {
            vex.set_charging(false);
            ChargeTick::Strike
        } else if within_three {
            ChargeTick::Retarget
        } else {
            ChargeTick::FlyOn
        }
    }
}

/// The idle flight of a vex around the block it is bound to.
pub struct VexRandomMoveGoal;

/// The spot `(dx, dy, dz)` from `bound`.
pub open spec fn around(bound: BlockPos, o: (i32, i32, i32)) -> BlockPos {
    BlockPos { x: (bound.x + o.0) as i32, y: (bound.y + o.1) as i32, z: (bound.z + o.2) as i32 }
}

pub open spec fn wander_offset_ok(o: (i32, i32, i32)) -> bool {
    -7 <= o.0 <= 7 && -5 <= o.1 <= 5 && -7 <= o.2 <= 7
}

/// The first of the tries, from the i-th on, that lands in air.
pub open spec fn spec_first_air(world: BlockWorld, bound: BlockPos, tries: Seq<(i32, i32, i32)>, i: int) -> Option<
    BlockPos,
>
    decreases tries.len() - i,
{
    if i < 0 || i >= tries.len() {
        None
    } else if spec_is_air(world.get_spec(around(bound, tries[i]))) {
        Some(around(bound, tries[i]))
    } else {
        spec_first_air(world, bound, tries, i + 1)
    }
}

impl VexRandomMoveGoal {
    /// The idle flight starts, with a one-in-seven `roll` of 0, when the vex
    /// has no point to fly to.
    pub fn can_start_with_roll(has_wanted: bool, roll: i32) -> (r: bool)
        ensures
            r == (!has_wanted && roll == 0),
    {
        !has_wanted && roll == 0
    }

    /// As `can_start_with_roll`, drawing the roll from 0..7.
    pub fn can_start(has_wanted: bool) -> (r: bool)
        ensures
            r ==> !has_wanted,
    {
        if has_wanted {
            return false;
        }
        Self::can_start_with_roll(has_wanted, random_range_i32(0, 7))
    }

    /// The spot to fly to: the first of the three tries around `bound` that is
    /// air; none when all are blocked.
    pub fn pick_spot(world: &BlockWorld, bound: &BlockPos, tries: &[(i32, i32, i32); 3]) -> (r: Option<
        BlockPos,
    >)
        requires
            bounded(*bound, COORD_LIMIT as int),
            forall|i: int| 0 <= i < 3 ==> wander_offset_ok(#[trigger] tries@[i]),
        ensures
            r == spec_first_air(*world, *bound, tries@, 0),
    {
        let mut i: usize = 0;
        while i < 3
            invariant
                0 <= i <= 3,
                bounded(*bound, COORD_LIMIT as int),
                forall|j: int| 0 <= j < 3 ==> wander_offset_ok(#[trigger] tries@[j]),
                spec_first_air(*world, *bound, tries@, 0) == spec_first_air(
                    *world,
                    *bound,
                    tries@,
                    i as int,
                ),
            decreases 3 - i,
        {
            let (dx, dy, dz) = tries[i];
            assert(wander_offset_ok(tries@[i as int]));
            let p = BlockPos { x: bound.x + dx, y: bound.y + dy, z: bound.z + dz };
            assert(p == around(*bound, tries@[i as int]));
            if world.get_block_state(&p).is_air() {
                return Some(p);
            }
            i += 1;
        }
        None
    }

    /// Starting: three spots within 7 blocks across and 5 up or down of
    /// `bound` are drawn, and the first that is air is the spot to fly to.
    /// Whichever spots were drawn, the answer is `pick_spot` of them.
    pub fn start(world: &BlockWorld, bound: &BlockPos) -> (r: Option<BlockPos>)
        requires
            bounded(*bound, COORD_LIMIT as int),
        ensures
            exists|tries: Seq<(i32, i32, i32)>|
                #![trigger spec_first_air(*world, *bound, tries, 0)]
                tries.len() == 3 && (forall|j: int|
                    0 <= j < 3 ==> wander_offset_ok(#[trigger] tries[j])) && r == spec_first_air(
                    *world,
                    *bound,
                    tries,
                    0,
                ),
            r matches Some(p) ==> spec_is_air(world.get_spec(p)) && -7 <= p.x - bound.x <= 7 && -5
                <= p.y - bound.y <= 5 && -7 <= p.z - bound.z <= 7,
    {
        let mut tries: [(i32, i32, i32); 3] = [(0, 0, 0); 3];
        let mut i: usize = 0;
        while i < 3
            invariant
                0 <= i <= 3,
                forall|j: int| 0 <= j < 3 ==> wander_offset_ok(#[trigger] tries@[j]),
            decreases 3 - i,
        {
            let dx = random_range_i32(-7, 8);
            let dy = random_range_i32(-5, 6);
            let dz = random_range_i32(-7, 8);
            tries[i] = (dx, dy, dz);
            i += 1;
        }
        let r = Self::pick_spot(world, bound, &tries);
        proof {
            lemma_first_air_is_air(*world, *bound, tries@, 0);
            assert(r == spec_first_air(*world, *bound, tries@, 0));
        }
        r
    }
}

proof fn lemma_first_air_is_air(world: BlockWorld, bound: BlockPos, tries: Seq<(i32, i32, i32)>, i: int)
    requires
        bounded(bound, COORD_LIMIT as int),
        forall|j: int| 0 <= j < tries.len() ==> wander_offset_ok(#[trigger] tries[j]),
    ensures
        spec_first_air(world, bound, tries, i) matches Some(p) ==> spec_is_air(world.get_spec(p))
            && -7 <= p.x - bound.x <= 7 && -5 <= p.y - bound.y <= 5 && -7 <= p.z - bound.z <= 7,
    decreases tries.len() - i,
{
    if 0 <= i < tries.len() {
        assert(wander_offset_ok(tries[i]));
        if !spec_is_air(world.get_spec(around(bound, tries[i]))) {
            lemma_first_air_is_air(world, bound, tries, i + 1);
        }
    }
}

/// The goal by which a vex takes over its owner's target.
pub struct VexCopyOwnerTargetGoal;

/// The index of the first nearby mob from the i-th on that is the owner and has
/// a living target.
pub open spec fn spec_owner_with_target(owner: u128, nearby: Seq<NearbyMob>, i: int) -> Option<int>
    decreases nearby.len() - i,
{
    if i < 0 || i >= nearby.len() {
        None
    } else if nearby[i].uuid == owner && nearby[i].target_alive == Some(true) {
        Some(i)
    } else {
        spec_owner_with_target(owner, nearby, i + 1)
    }
}

impl VexCopyOwnerTargetGoal {
    /// A vex with an owner and no target of its own takes the living target of
    /// its owner among the nearby mobs: the answer is where the owner stands in
    /// `nearby`.
    pub fn can_start(vex: &VexEntity, has_target: bool, nearby: &Vec<NearbyMob>) -> (r: Option<usize>)
        ensures
            r == match vex.owner_uuid {
                None => None,
                Some(o) => if has_target {
                    None
                } else {
                    match spec_owner_with_target(o, nearby@, 0) {
                        Some(i) => Some(i as usize),
                        None => None,
                    }
                },
            },
    {
        let owner = match vex.owner_uuid {
            None => return None,
            Some(o) => o,
        };
        if has_target {
            return None;
        }
        let mut i: usize = 0;
        while i < nearby.len()
            invariant
                0 <= i <= nearby@.len(),
                vex.owner_uuid == Some(owner),
                !has_target,
                spec_owner_with_target(owner, nearby@, 0) == spec_owner_with_target(
                    owner,
                    nearby@,
                    i as int,
                ),
            decreases nearby@.len() - i,
        {
            let m = nearby[i];
            if m.uuid == owner && m.target_alive == Some(true) {
                assert(spec_owner_with_target(owner, nearby@, i as int) == Some(i as int));
                return Some(i);
            }
            i += 1;
        }
        None
    }

    /// The copied target is kept while it lives.
    pub fn should_continue(target_alive: Option<bool>) -> (r: bool)
        ensures
            r == (target_alive == Some(true)),
    {
        target_alive == Some(true)
    }
}

} // verus!
