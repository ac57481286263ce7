use vstd::prelude::*;

use crate::entity::{to_goal_ticks, EntityKind};
use crate::geometry::{bounded, BlockPos, COORD_LIMIT};
use crate::rng::random_range_i32;
use crate::world::{Block, BlockWorld};

verus! {

// ---------------------------------------------------------------- targeting

/// An entity a mob could target, as the mob sees it: its kind, whether it is
/// a living entity, whether it passes the mob's targeting test, and a key
/// that orders the candidates by distance (nearer first; the caller gives the
/// bits of the non-negative squared distance, which order as the distances
/// do).
#[derive(Clone, Copy, Debug, PartialEq, Eq, Structural)]
pub struct TargetCandidate {
    pub entity_id: i32,
    pub kind: EntityKind,
    pub living: bool,
    pub passes: bool,
    pub distance_key: u64,
}

/// The goal of attacking the nearest entity of a kind (or any kind).
#[derive(Clone, Copy, Debug, PartialEq, Eq, Structural)]
pub struct ActiveTargetGoal {
    pub target: Option<i32>,
    pub reciprocal_chance: i32,
    pub target_kind: Option<EntityKind>,
}

/// The default chance, in server ticks, of looking for a target.
pub const DEFAULT_RECIPROCAL_CHANCE: i32 = 10;

pub open spec fn eligible(c: TargetCandidate, kind: Option<EntityKind>) -> bool {
    c.living && c.passes && match kind {
        Some(k) => c.kind == k,
        None => true,
    }
}

/// The index of the nearest eligible candidate among the first `n`; of equally
/// near ones the first.
pub open spec fn spec_closest(cands: Seq<TargetCandidate>, kind: Option<EntityKind>, n: int) -> Option<
    int,
>
    decreases n,
{
    if n <= 0 {
        None
    } else {
        let best = spec_closest(cands, kind, n - 1);
        if eligible(cands[n - 1], kind) && match best {
            None => true,
            Some(b) => cands[n - 1].distance_key < cands[b].distance_key,
        } {
            Some(n - 1)
        } else {
            best
        }
    }
}

proof fn lemma_closest_in_range(cands: Seq<TargetCandidate>, kind: Option<EntityKind>, n: int)
    ensures
        spec_closest(cands, kind, n) matches Some(i) ==> 0 <= i < n,
    decreases n,
{
    if n > 0 {
        lemma_closest_in_range(cands, kind, n - 1);
    }
}

/// The target search picks the nearest eligible candidate, the first of
/// equally near ones, and finds none only when no candidate is eligible.
pub proof fn law_closest_is_nearest(cands: Seq<TargetCandidate>, kind: Option<EntityKind>, n: int)
    requires
        0 <= n <= cands.len(),
    ensures
        spec_closest(cands, kind, n) is None <==> forall|j: int|
            0 <= j < n ==> !eligible(#[trigger] cands[j], kind),
        spec_closest(cands, kind, n) matches Some(i) ==> {
            &&& 0 <= i < n
            &&& eligible(cands[i], kind)
            &&& forall|j: int|
                0 <= j < n && eligible(#[trigger] cands[j], kind) ==> cands[i].distance_key
                    <= cands[j].distance_key
            &&& forall|j: int|
                0 <= j < i && eligible(#[trigger] cands[j], kind) ==> cands[i].distance_key
                    < cands[j].distance_key
        },
    decreases n,
{
    if n > 0 {
        law_closest_is_nearest(cands, kind, n - 1);
    }
}

pub open spec fn spec_closest_id(cands: Seq<TargetCandidate>, kind: Option<EntityKind>) -> Option<i32> {
    match spec_closest(cands, kind, cands.len() as int) {
        Some(i) => Some(cands[i].entity_id),
        None => None,
    }
}

impl ActiveTargetGoal {
    /// A goal for targets of kind `target_kind` that looks for one about once
    /// in `reciprocal_chance` server ticks.
    pub fn new(target_kind: EntityKind, reciprocal_chance: i32) -> (r: ActiveTargetGoal)
        requires
            reciprocal_chance >= 0,
        ensures
            r == (ActiveTargetGoal {
                target: None,
                reciprocal_chance: ((reciprocal_chance + 1) / 2) as i32,
                target_kind: Some(target_kind),
            }),
    {
        ActiveTargetGoal {
            target: None,
            reciprocal_chance: to_goal_ticks(reciprocal_chance),
            target_kind: Some(target_kind),
        }
    }

    /// A goal for targets of any kind (the caller's test does the choosing).
    pub fn with_mob_class(reciprocal_chance: i32) -> (r: ActiveTargetGoal)
        requires
            reciprocal_chance >= 0,
        ensures
            r == (ActiveTargetGoal {
                target: None,
                reciprocal_chance: ((reciprocal_chance + 1) / 2) as i32,
                target_kind: None,
            }),
    {
        ActiveTargetGoal {
            target: None,
            reciprocal_chance: to_goal_ticks(reciprocal_chance),
            target_kind: None,
        }
    }

    /// A goal for targets of kind `target_kind` with the default chance.
    pub fn with_default(target_kind: EntityKind) -> (r: ActiveTargetGoal)
        ensures
            r == (ActiveTargetGoal { target: None, reciprocal_chance: 5, target_kind: Some(target_kind) }),
    {
        Self::new(target_kind, DEFAULT_RECIPROCAL_CHANCE)
    }

    pub fn set_target(&mut self, target: Option<i32>)
        ensures
            *final(self) == (ActiveTargetGoal { target, ..*old(self) }),
    {
        self.target = target;
    }

    /// Picks the nearest eligible candidate (see `spec_closest`).
    pub fn find_closest_target(&mut self, cands: &Vec<TargetCandidate>)
        ensures
            *final(self) == (ActiveTargetGoal {
                target: spec_closest_id(cands@, old(self).target_kind),
                ..*old(self)
            }),
    {
        let kind = self.target_kind;
        let mut best: Option<usize> = None;
        let mut i: usize = 0;
        while i < cands.len()
            invariant
                0 <= i <= cands@.len(),
                match best {
                    Some(b) => spec_closest(cands@, kind, i as int) == Some(b as int),
                    None => spec_closest(cands@, kind, i as int) is None,
                },
            decreases cands@.len() - i,
        {
            proof {
                lemma_closest_in_range(cands@, kind, i as int);
            }
            let c = cands[i];
            let ok = c.living && c.passes && match kind {
                Some(k) => c.kind == k,
                None => true,
            };
            if ok {
                let closer = match best {
                    None => true,
                    Some(b) => c.distance_key < cands[b].distance_key,
                };
                if closer {
                    best = Some(i);
                }
            }
            i += 1;
        }
        proof {
            lemma_closest_in_range(cands@, kind, cands@.len() as int);
        }
        self.target = match best {
            Some(b) => Some(cands[b].entity_id),
            None => None,
        };
    }

    /// The goal starts when the roll (of 0..reciprocal_chance) is 0 (or the
    /// chance is 0) and a target is found.
    pub fn can_start_with_roll(&mut self, cands: &Vec<TargetCandidate>, roll: i32) -> (r: bool)
        ensures
            old(self).reciprocal_chance > 0 && roll != 0 ==> !r && *final(self) == *old(self),
            !(old(self).reciprocal_chance > 0 && roll != 0) ==> *final(self) == (ActiveTargetGoal {
                target: spec_closest_id(cands@, old(self).target_kind),
                ..*old(self)
            }) && r == final(self).target is Some,
    {
        if self.reciprocal_chance > 0 && roll != 0 {
            return false;
        }
        self.find_closest_target(cands);
        self.target.is_some()
    }

    /// As `can_start_with_roll`, drawing the roll.  With a chance of one in
    /// one (or none set) the goal always looks for its target; else it either
    /// looks, or (the roll missing) does nothing and does not start.
    pub fn can_start(&mut self, cands: &Vec<TargetCandidate>) -> (r: bool)
        ensures
            old(self).reciprocal_chance <= 1 ==> *final(self) == (ActiveTargetGoal {
                target: spec_closest_id(cands@, old(self).target_kind),
                ..*old(self)
            }) && r == final(self).target is Some,
            old(self).reciprocal_chance > 1 ==> (*final(self) == (ActiveTargetGoal {
                target: spec_closest_id(cands@, old(self).target_kind),
                ..*old(self)
            }) && r == final(self).target is Some) || (!r && *final(self) == *old(self)),
    {
        let roll = if self.reciprocal_chance > 0 {
            random_range_i32(0, self.reciprocal_chance)
        } else {
            0
        };
        self.can_start_with_roll(cands, roll)
    }
}

// ---------------------------------------------------------------- wandering

/// The lowest and highest block heights a wanderer aims for.
pub const MIN_WANDER_Y: i32 = -64;
pub const MAX_WANDER_Y: i32 = 319;

pub open spec fn up(p: BlockPos) -> BlockPos {
    BlockPos { x: p.x, y: (p.y + 1) as i32, z: p.z }
}

pub open spec fn down(p: BlockPos) -> BlockPos {
    BlockPos { x: p.x, y: (p.y - 1) as i32, z: p.z }
}

pub open spec fn solid_at(world: BlockWorld, p: BlockPos) -> bool {
    world.get_spec(p).solid
}

pub open spec fn fluid_at(world: BlockWorld, p: BlockPos) -> bool {
    world.get_spec(p).block == Block::Water || world.get_spec(p).block == Block::Lava
}

/// Climbing out of a solid block: the first of the next `k` blocks up that
/// is not solid, unless the build limit comes first.
pub open spec fn spec_climb(world: BlockWorld, p: BlockPos, k: nat) -> Option<BlockPos>
    decreases k,
{
    if k == 0 {
        None
    } else if up(p).y >= MAX_WANDER_Y {
        None
    } else if !solid_at(world, up(p)) {
        Some(up(p))
    } else {
        spec_climb(world, up(p), (k - 1) as nat)
    }
}

/// Dropping from the air: the lowest air block reached within the next `k`
/// steps down when a solid block lies below it, unless the bottom of the world
/// comes first.
pub open spec fn spec_descend(world: BlockWorld, p: BlockPos, k: nat) -> Option<BlockPos>
    decreases k,
{
    if k == 0 {
        None
    } else if down(p).y < MIN_WANDER_Y {
        None
    } else if solid_at(world, down(p)) {
        Some(p)
    } else {
        spec_descend(world, down(p), (k - 1) as nat)
    }
}

pub open spec fn clamp_y(y: int) -> int {
    if y < MIN_WANDER_Y {
        MIN_WANDER_Y as int
    } else if y > MAX_WANDER_Y {
        MAX_WANDER_Y as int
    } else {
        y
    }
}

/// One wander try at offset `o` from `base`: the spot must not be the mob's
/// own column; it is moved to the surface; it must stand on a solid block,
/// leave room for feet and head, and neither it nor the block below may be
/// water or lava.
pub open spec fn spec_wander_try(world: BlockWorld, base: BlockPos, o: (i32, i32, i32)) -> Option<
    BlockPos,
> {
    if o.0 == 0 && o.2 == 0 {
        None
    } else {
        let c0 = BlockPos {
            x: (base.x + o.0) as i32,
            y: clamp_y(base.y + o.1) as i32,
            z: (base.z + o.2) as i32,
        };
        let landing = if solid_at(world, c0) {
            spec_climb(world, c0, 8)
        } else {
            spec_descend(world, c0, 8)
        };
        match landing {
            None => None,
            Some(c) => if !solid_at(world, down(c)) || solid_at(world, c) || solid_at(world, up(c))
                || fluid_at(world, c) || fluid_at(world, down(c)) {
                None
            } else {
                Some(c)
            },
        }
    }
}

/// The first successful try from the i-th on.
pub open spec fn spec_wander(world: BlockWorld, base: BlockPos, tries: Seq<(i32, i32, i32)>, i: int) -> Option<
    BlockPos,
>
    decreases tries.len() - i,
{
    if i < 0 || i >= tries.len() {
        None
    } else {
        match spec_wander_try(world, base, tries[i]) {
            Some(p) => Some(p),
            None => spec_wander(world, base, tries, i + 1),
        }
    }
}

pub open spec fn wander_offset(o: (i32, i32, i32)) -> bool {
    -10 <= o.0 <= 10 && -7 <= o.1 <= 7 && -10 <= o.2 <= 10
}

proof fn lemma_climb_same_column(world: BlockWorld, p: BlockPos, k: nat)
    ensures
        spec_climb(world, p, k) matches Some(c) ==> c.x == p.x && c.z == p.z,
    decreases k,
{
    if k > 0 {
        lemma_climb_same_column(world, up(p), (k - 1) as nat);
    }
}

proof fn lemma_descend_same_column(world: BlockWorld, p: BlockPos, k: nat)
    ensures
        spec_descend(world, p, k) matches Some(c) ==> c.x == p.x && c.z == p.z,
    decreases k,
{
    if k > 0 {
        lemma_descend_same_column(world, down(p), (k - 1) as nat);
    }
}

/// A dry place a mob can stand: a solid block below, room for feet and head, and
/// no water or lava at the feet or below.
pub open spec fn dry_standing_spot(world: BlockWorld, p: BlockPos) -> bool {
    &&& world.get_spec(BlockPos { x: p.x, y: (p.y - 1) as i32, z: p.z }).solid
    &&& !world.get_spec(p).solid
    &&& !world.get_spec(BlockPos { x: p.x, y: (p.y + 1) as i32, z: p.z }).solid
    &&& world.get_spec(p).block != Block::Water && world.get_spec(p).block != Block::Lava
    &&& world.get_spec(BlockPos { x: p.x, y: (p.y - 1) as i32, z: p.z }).block != Block::Water
    &&& world.get_spec(BlockPos { x: p.x, y: (p.y - 1) as i32, z: p.z }).block != Block::Lava
}

/// A wander try only ever answers a spot a mob can stand in, in the column of
/// the offset, which is never the mob's own column; and where the spot at the
/// offset already is such a place (within the heights wandered to), that is
/// the answer.
pub proof fn law_wander_spot_is_standable(world: BlockWorld, base: BlockPos, o: (i32, i32, i32))
    requires
        bounded(base, COORD_LIMIT as int),
        wander_offset(o),
    ensures
        spec_wander_try(world, base, o) matches Some(p) ==> {
            &&& dry_standing_spot(world, p)
            &&& p.x == base.x + o.0
            &&& p.z == base.z + o.2
            &&& (o.0 != 0 || o.2 != 0)
        },
        ({
            let spot = BlockPos {
                x: (base.x + o.0) as i32,
                y: (base.y + o.1) as i32,
                z: (base.z + o.2) as i32,
            };
            (o.0 != 0 || o.2 != 0) && MIN_WANDER_Y < base.y + o.1 <= MAX_WANDER_Y && dry_standing_spot(
                world,
                spot,
            ) ==> spec_wander_try(world, base, o) == Some(spot)
        }),
{
    if o.0 != 0 || o.2 != 0 {
        let c0 = BlockPos {
            x: (base.x + o.0) as i32,
            y: clamp_y(base.y + o.1) as i32,
            z: (base.z + o.2) as i32,
        };
        lemma_climb_same_column(world, c0, 8);
        lemma_descend_same_column(world, c0, 8);
    }
}

/// The goal of wandering to random nearby spots.
#[derive(Clone, Copy, Debug, PartialEq, Eq, Structural)]
pub struct WanderAroundGoal {
    /// The block the mob wanders to.
    pub target: Option<BlockPos>,
    /// One in this many goal ticks the mob sets off.
    pub chance: i32,
}

impl WanderAroundGoal {
    pub fn new() -> (r: WanderAroundGoal)
        ensures
            r == (WanderAroundGoal { target: None, chance: 60 }),
    {
        WanderAroundGoal { target: None, chance: to_goal_ticks(120) }
    }

    fn climb(world: &BlockWorld, start: BlockPos) -> (r: Option<BlockPos>)
        requires
            MIN_WANDER_Y <= start.y <= MAX_WANDER_Y,
        ensures
            r == spec_climb(*world, start, 8),
            r matches Some(c) ==> c.x == start.x && c.z == start.z && start.y < c.y < MAX_WANDER_Y,
    {
        let mut p = start;
        let mut k: u32 = 8;
        while k > 0
            invariant
                0 <= k <= 8,
                p.x == start.x && p.z == start.z,
                start.y <= p.y <= MAX_WANDER_Y,
                spec_climb(*world, start, 8) == spec_climb(*world, p, k as nat),
            decreases k,
        {
            let u = BlockPos { x: p.x, y: p.y + 1, z: p.z };
            assert(u == up(p));
            if u.y >= MAX_WANDER_Y {
                return None;
            }
            if !world.get_block_state(&u).solid {
                return Some(u);
            }
            p = u;
            k -= 1;
        }
        None
    }

    fn descend(world: &BlockWorld, start: BlockPos) -> (r: Option<BlockPos>)
        requires
            MIN_WANDER_Y <= start.y <= MAX_WANDER_Y,
        ensures
            r == spec_descend(*world, start, 8),
            r matches Some(c) ==> c.x == start.x && c.z == start.z && MIN_WANDER_Y < c.y <= start.y,
    {
        let mut p = start;
        let mut k: u32 = 8;
        while k > 0
            invariant
                0 <= k <= 8,
                p.x == start.x && p.z == start.z,
                MIN_WANDER_Y <= p.y <= start.y,
                spec_descend(*world, start, 8) == spec_descend(*world, p, k as nat),
            decreases k,
        {
            let d = BlockPos { x: p.x, y: p.y - 1, z: p.z };
            assert(d == down(p));
            if d.y < MIN_WANDER_Y {
                return None;
            }
            if world.get_block_state(&d).solid {
                return Some(p);
            }
            p = d;
            k -= 1;
        }
        None
    }

    fn is_fluid(b: Block) -> (r: bool)
        ensures
            r == (b == Block::Water || b == Block::Lava),
    {
        b == Block::Water || b == Block::Lava
    }

    /// One try at offset `o` (see `spec_wander_try`).
    pub fn wander_try(world: &BlockWorld, base: &BlockPos, o: (i32, i32, i32)) -> (r: Option<BlockPos>)
        requires
            bounded(*base, COORD_LIMIT as int),
            wander_offset(o),
        ensures
            r == spec_wander_try(*world, *base, o),
    {
        let (dx, dy, dz) = o;
        if dx == 0 && dz == 0 {
            return None;
        }
        let raw_y = base.y + dy;
        let y = if raw_y < MIN_WANDER_Y {
            MIN_WANDER_Y
        } else if raw_y > MAX_WANDER_Y {
            MAX_WANDER_Y
        } else {
            raw_y
        };
        let c0 = BlockPos { x: base.x + dx, y, z: base.z + dz };
        let landing = if world.get_block_state(&c0).solid {
            Self::climb(world, c0)
        } else {
            Self::descend(world, c0)
        };
        let c = match landing {
            None => return None,
            Some(c) => c,
        };
        let below = BlockPos { x: c.x, y: c.y - 1, z: c.z };
        let head = BlockPos { x: c.x, y: c.y + 1, z: c.z };
        assert(below == down(c));
        assert(head == up(c));
        let below_state = world.get_block_state(&below);
        if !below_state.solid {
            return None;
        }
        let feet = world.get_block_state(&c);
        if feet.solid || world.get_block_state(&head).solid {
            return None;
        }
        if Self::is_fluid(feet.block) || Self::is_fluid(below_state.block) {
            return None;
        }
        Some(c)
    }

    /// The spot to wander to: the first of the tries that succeeds.
    pub fn find_wander_target_with(world: &BlockWorld, base: &BlockPos, tries: &Vec<(i32, i32, i32)>) -> (r:
        Option<BlockPos>)
        requires
            bounded(*base, COORD_LIMIT as int),
            forall|i: int| 0 <= i < tries@.len() ==> wander_offset(#[trigger] tries@[i]),
        ensures
            r == spec_wander(*world, *base, tries@, 0),
    {
        let mut i: usize = 0;
        while i < tries.len()
            invariant
                0 <= i <= tries@.len(),
                bounded(*base, COORD_LIMIT as int),
                forall|j: int| 0 <= j < tries@.len() ==> wander_offset(#[trigger] tries@[j]),
                spec_wander(*world, *base, tries@, 0) == spec_wander(*world, *base, tries@, i as int),
            decreases tries@.len() - i,
        {
            let o = tries[i];
            if let Some(p) = Self::wander_try(world, base, o) {
                return Some(p);
            }
            i += 1;
        }
        None
    }

    /// Ten tries, each drawing offsets of up to 10 blocks across and 7 up or
    /// down (see `find_wander_target_with`).
    pub fn find_wander_target(world: &BlockWorld, base: &BlockPos) -> (r: Option<BlockPos>)
        requires
            bounded(*base, COORD_LIMIT as int),
        ensures
            exists|tries: Seq<(i32, i32, i32)>|
                tries.len() == 10 && (forall|i: int| 0 <= i < 10 ==> wander_offset(#[trigger] tries[i]))
                    && r == #[trigger] spec_wander(*world, *base, tries, 0),
    {
        let mut tries: Vec<(i32, i32, i32)> = Vec::new();
        let mut k: usize = 0;
        while k < 10
            invariant
                0 <= k <= 10,
                tries@.len() == k,
                forall|i: int| 0 <= i < tries@.len() ==> wander_offset(#[trigger] tries@[i]),
            decreases 10 - k,
        {
            let dx = random_range_i32(-10, 11);
            let dy = random_range_i32(-7, 8);
            let dz = random_range_i32(-10, 11);
            tries.push((dx, dy, dz));
            k += 1;
        }
        let r = Self::find_wander_target_with(world, base, &tries);
        assert(r == spec_wander(*world, *base, tries@, 0));
        r
    }

    /// Whether a mob that is neither sitting nor asleep sets off, for a roll of
    /// 0..chance: only a roll of 0 does; the spot comes from the tries.
    pub fn can_start_with(
        &mut self,
        sitting_or_asleep: bool,
        roll: i32,
        world: &BlockWorld,
        base: &BlockPos,
        tries: &Vec<(i32, i32, i32)>,
    ) -> (r: bool)
        requires
            bounded(*base, COORD_LIMIT as int),
            forall|i: int| 0 <= i < tries@.len() ==> wander_offset(#[trigger] tries@[i]),
        ensures
            (sitting_or_asleep || roll != 0) ==> !r && *final(self) == *old(self),
            !(sitting_or_asleep || roll != 0) ==> r == spec_wander(*world, *base, tries@, 0) is Some
                && final(self).target == if r {
                spec_wander(*world, *base, tries@, 0)
            } else {
                old(self).target
            } && final(self).chance == old(self).chance,
    {
        if sitting_or_asleep || roll != 0 {
            return false;
        }
        match Self::find_wander_target_with(world, base, tries) {
            Some(t) => {
                self.target = Some(t);
                true
            },
            None => false,
        }
    }

    /// The wandering goes on while the mob is neither sitting nor asleep and
    /// still has a path.
    pub fn should_continue(sitting_or_asleep: bool, navigating: bool) -> (r: bool)
        ensures
            r == (!sitting_or_asleep && navigating),
    {
        !sitting_or_asleep && navigating
    }

    /// Stopping forgets the spot.
    pub fn stop(&mut self)
        ensures
            *final(self) == (WanderAroundGoal { target: None, ..*old(self) }),
    {
        self.target = None;
    }
}

// ---------------------------------------------------------------- job sites

/// The goal of a villager walking to its job site and working there.
#[derive(Clone, Copy, Debug, PartialEq, Eq, Structural)]
pub struct WorkAtJobSiteGoal {
    pub target: Option<BlockPos>,
    pub work_timer: i32,
}

/// What a tick at the job site does.
#[derive(Clone, Copy, Debug, PartialEq, Eq, Structural)]
pub enum JobSiteTick {
    /// No job site.
    Nothing,
    /// At the site: the villager stands and looks at it.
    Stay,
    /// At the site, and the work timer ran out: the villager works.
    Work,
    /// Away from the site with no path: a new path is set.
    Walk,
    /// Away from the site, still walking.
    KeepWalking,
}

/// A villager can stand at `p`: feet and head free, a solid block below.
pub open spec fn standable(world: BlockWorld, p: BlockPos) -> bool {
    !solid_at(world, p) && !solid_at(world, up(p)) && solid_at(world, down(p))
}

pub open spec fn side_offset(i: int) -> (int, int) {
    if i == 0 {
        (0, 1)
    } else if i == 1 {
        (1, 0)
    } else if i == 2 {
        (0, -1)
    } else {
        (-1, 0)
    }
}

pub open spec fn side_pos(target: BlockPos, i: int, dy: int) -> BlockPos {
    BlockPos {
        x: (target.x + side_offset(i).0) as i32,
        y: (target.y + dy) as i32,
        z: (target.z + side_offset(i).1) as i32,
    }
}

/// The spot beside side `i` of the site: level first, then one down, then
/// one up.
pub open spec fn spec_side_spot(world: BlockWorld, target: BlockPos, i: int) -> Option<BlockPos> {
    if standable(world, side_pos(target, i, 0)) {
        Some(side_pos(target, i, 0))
    } else if standable(world, side_pos(target, i, -1)) {
        Some(side_pos(target, i, -1))
    } else if standable(world, side_pos(target, i, 1)) {
        Some(side_pos(target, i, 1))
    } else {
        None
    }
}

/// The index of the nearest found spot among the first `n` by the distance
/// keys; of equally near ones the first.
pub open spec fn spec_nearest_spot(spots: Seq<Option<BlockPos>>, keys: Seq<u64>, n: int) -> Option<int>
    decreases n,
{
    if n <= 0 {
        None
    } else {
        let best = spec_nearest_spot(spots, keys, n - 1);
        if spots[n - 1] is Some && match best {
            None => true,
            Some(b) => keys[n - 1] < keys[b],
        } {
            Some(n - 1)
        } else {
            best
        }
    }
}

proof fn lemma_nearest_spot_bounds(spots: Seq<Option<BlockPos>>, keys: Seq<u64>, n: int)
    ensures
        spec_nearest_spot(spots, keys, n) matches Some(b) ==> 0 <= b < n && spots[b] is Some,
    decreases n,
{
    if n > 0 {
        lemma_nearest_spot_bounds(spots, keys, n - 1);
    }
}

impl WorkAtJobSiteGoal {
    pub fn new() -> (r: WorkAtJobSiteGoal)
        ensures
            r == (WorkAtJobSiteGoal { target: None, work_timer: 0 }),
    {
        WorkAtJobSiteGoal { target: None, work_timer: 0 }
    }

    /// A villager heads for its site when a job site is pending for it, or
    /// between day times 2000 and 9000.
    pub fn should_move_to_job_site(pending: bool, daytime: i64) -> (r: bool)
        ensures
            r == (pending || (2000 <= daytime < 9000)),
    {
        pending || (2000 <= daytime && daytime < 9000)
    }

    /// The goal starts when the villager has a job site and should go there.
    pub fn can_start(&mut self, job_site: Option<BlockPos>, pending: bool, daytime: i64) -> (r: bool)
        ensures
            r == (job_site is Some && (pending || (2000 <= daytime < 9000))),
            r ==> final(self).target == job_site,
            !r ==> *final(self) == *old(self),
            final(self).work_timer == old(self).work_timer,
    {
        match job_site {
            None => false,
            Some(t) => if Self::should_move_to_job_site(pending, daytime) {
                self.target = Some(t);
                true
            } else {
                false
            },
        }
    }

    /// The goal goes on while the job site is unchanged and the villager
    /// should be there.
    pub fn should_continue(&self, job_site: Option<BlockPos>, pending: bool, daytime: i64) -> (r: bool)
        ensures
            r == (self.target is Some && job_site == self.target && (pending || (2000 <= daytime
                < 9000))),
    {
        match self.target {
            None => false,
            Some(t) => job_site == Some(t) && Self::should_move_to_job_site(pending, daytime),
        }
    }

    /// Starting: the first work comes after 20 ticks.
    pub fn start(&mut self)
        ensures
            *final(self) == (WorkAtJobSiteGoal { work_timer: 20, ..*old(self) }),
    {
        self.work_timer = 20;
    }

    /// Stopping forgets the site; answers whether a pending job site must be
    /// released (the villager stopped two blocks or more away from it).
    pub fn stop(&mut self, far: bool, pending: bool) -> (r: bool)
        ensures
            r == (old(self).target is Some && far && pending),
            *final(self) == (WorkAtJobSiteGoal { target: None, ..*old(self) }),
    {
        let release = self.target.is_some() && far && pending;
        self.target = None;
        release
    }

    /// The standing spots beside the four sides of the site (see
    /// `spec_side_spot`), in the order +z, +x, -z, -x.
    pub fn stand_spots(world: &BlockWorld, target: &BlockPos) -> (r: [Option<BlockPos>; 4])
        requires
            bounded(*target, COORD_LIMIT as int),
        ensures
            forall|i: int| 0 <= i < 4 ==> #[trigger] r@[i] == spec_side_spot(*world, *target, i),
    {
        let sides: [(i32, i32); 4] = [(0, 1), (1, 0), (0, -1), (-1, 0)];
        let mut r: [Option<BlockPos>; 4] = [None, None, None, None];
        let mut i: usize = 0;
        while i < 4
            invariant
                0 <= i <= 4,
                bounded(*target, COORD_LIMIT as int),
                sides@ == seq![(0i32, 1i32), (1i32, 0i32), (0i32, -1i32), (-1i32, 0i32)],
                forall|j: int| 0 <= j < i ==> #[trigger] r@[j] == spec_side_spot(*world, *target, j),
            decreases 4 - i,
        {
            let (dx, dz) = sides[i];
            assert((dx as int, dz as int) == side_offset(i as int));
            let mut found: Option<BlockPos> = None;
            let dys: [i32; 3] = [0, -1, 1];
            let mut k: usize = 0;
            while k < 3
                invariant
                    0 <= k <= 3,
                    i < 4,
                    bounded(*target, COORD_LIMIT as int),
                    (dx as int, dz as int) == side_offset(i as int),
                    dys@ == seq![0i32, -1i32, 1i32],
                    found is None ==> forall|m: int| 0 <= m < k ==> !standable(*world, side_pos(*target, i as int, #[trigger] dys@[m] as int)),
                    found matches Some(p) ==> spec_side_spot(*world, *target, i as int) == Some(p),
                decreases 3 - k,
            {
                if found.is_none() {
                    let dy = dys[k];
                    let p = BlockPos { x: target.x + dx, y: target.y + dy, z: target.z + dz };
                    assert(p == side_pos(*target, i as int, dy as int));
                    let head = BlockPos { x: p.x, y: p.y + 1, z: p.z };
                    let foot = BlockPos { x: p.x, y: p.y - 1, z: p.z };
                    assert(head == up(p));
                    assert(foot == down(p));
                    if !world.get_block_state(&p).solid && !world.get_block_state(&head).solid
                        && world.get_block_state(&foot).solid {
                        found = Some(p);
                    }
                }
                k += 1;
            }
            r[i] = found;
            i += 1;
        }
        r
    }

    /// The spot to walk to: of the standing spots found, the nearest by the
    /// caller's distance keys (of equally near ones the first); the site itself
    /// when there is none.
    pub fn pick_stand_pos(target: BlockPos, spots: &[Option<BlockPos>; 4], keys: &[u64; 4]) -> (r:
        BlockPos)
        ensures
            r == match spec_nearest_spot(spots@, keys@, 4) {
                Some(b) => spots@[b]->0,
                None => target,
            },
    {
        let mut best: Option<usize> = None;
        let mut i: usize = 0;
        while i < 4
            invariant
                0 <= i <= 4,
                match best {
                    Some(b) => spec_nearest_spot(spots@, keys@, i as int) == Some(b as int),
                    None => spec_nearest_spot(spots@, keys@, i as int) is None,
                },
            decreases 4 - i,
        {
            proof {
                lemma_nearest_spot_bounds(spots@, keys@, i as int);
            }
            if spots[i].is_some() {
                let closer = match best {
                    None => true,
                    Some(b) => keys[i] < keys[b],
                };
                if closer {
                    best = Some(i);
                }
            }
            i += 1;
        }
        proof {
            lemma_nearest_spot_bounds(spots@, keys@, 4);
        }
        match best {
            Some(b) => match spots[b] {
                Some(p) => p,
                None => target,
            },
            None => target,
        }
    }

    /// A tick: at the site (within 1.73 blocks) the work timer runs down and
    /// the villager works when it reaches zero (the timer restarts at 300);
    /// away from it a new path is set when the old one ended.
    pub fn tick(&mut self, at_site: bool, navigating: bool) -> (r: JobSiteTick)
        requires
            old(self).work_timer > i32::MIN,
        ensures
            old(self).target is None ==> r == JobSiteTick::Nothing && *final(self) == *old(self),
            old(self).target is Some && at_site ==> {
                let t = old(self).work_timer - 1;
                &&& r == if t <= 0 {
                    JobSiteTick::Work
                } else {
                    JobSiteTick::Stay
                }
                &&& *final(self) == (WorkAtJobSiteGoal {
                    work_timer: if t <= 0 {
                        300
                    } else {
                        t as i32
                    },
                    ..*old(self)
                })
            },
            old(self).target is Some && !at_site ==> r == if navigating {
                JobSiteTick::KeepWalking
            } else {
                JobSiteTick::Walk
            } && *final(self) == *old(self),
    {
        if self.target.is_none() {
            return JobSiteTick::Nothing;
        }
        if at_site {
            self.work_timer = self.work_timer - 1;
            if self.work_timer <= 0 {
                self.work_timer = 300;
                return JobSiteTick::Work;
            }
            JobSiteTick::Stay
        } else if navigating {
            JobSiteTick::KeepWalking
        } else {
            JobSiteTick::Walk
        }
    }
}

} // verus!
