use vstd::prelude::*;

use crate::entity::EntityKind;
use crate::geometry::{bounded, BlockPos, COORD_LIMIT};
use crate::rng::random_range_i32;
use crate::world::{spec_is_air, Block, BlockWorld};

verus! {

/// What a breeze is doing.  `P` is the point a slide heads for, which the
/// rules carry but never look into.
#[derive(Clone, Copy, Debug)]
pub enum BreezeState<P> {
    Standing,
    PreparingShoot { ticks: i32, target_id: i32 },
    ShootingRecover { ticks: i32, target_id: i32 },
    PreparingJump { ticks: i32, target_pos: BlockPos },
    LongJumping { ticks: i32 },
    Sliding { ticks: i32, target: P },
}

/// How far the target is, horizontally: within 4 blocks, within 16, within
/// 24, or further.
#[derive(Clone, Copy, Debug, PartialEq, Eq, Structural)]
pub enum TargetRange {
    Near,
    Shooting,
    Far,
    Beyond,
}

/// The target a standing breeze sees.
#[derive(Clone, Copy, Debug, PartialEq, Eq, Structural)]
pub struct BreezeTarget {
    pub entity_id: i32,
    pub range: TargetRange,
}

/// What the world looks like to the breeze this tick.  Only the fields that
/// the current state reads matter.
#[derive(Clone, Copy, Debug)]
pub struct BreezeSenses<P> {
    /// Standing: the current target.
    pub target: Option<BreezeTarget>,
    pub on_ground: bool,
    /// Standing: a surface point to slide to, away from a near target.
    pub slide_away: Option<P>,
    /// Standing: the breeze has room above it to jump.
    pub can_jump: bool,
    /// Standing: a surface block behind the target to jump to.
    pub jump_target: Option<BlockPos>,
    /// Standing: a surface point in the ring around the target.
    pub reposition: Option<P>,
    /// Preparing a shot: the entity aimed at still exists.
    pub shot_target_present: bool,
    /// Preparing a jump: a launch velocity that reaches the target was found.
    pub launch_possible: bool,
    /// Long jumping: the breeze is in water.
    pub in_water: bool,
    /// Sliding: the breeze is within half a block of its slide target.
    pub slide_arrived: bool,
}

/// What the breeze does in the world this tick.
#[derive(Clone, Copy, Debug)]
pub enum BreezeAction<P> {
    /// Stands still.
    Idle,
    /// Starts sliding away from a near target.
    SlideAway { target: P },
    /// Starts inhaling for a shot.
    Inhale { target_id: i32 },
    /// Starts charging a jump.
    Charge { target_pos: BlockPos },
    /// Starts sliding to a new spot around the target.
    Reposition { target: P },
    /// Turns towards the entity it will shoot.
    Aim { target_id: i32 },
    /// Fires a wind charge at the entity.
    Shoot { target_id: i32 },
    /// Waits after a shot.
    Recover,
    /// Goes back to standing.
    StandUp,
    /// Turns towards the jump target.
    FaceJumpTarget { target_pos: BlockPos },
    /// Leaps towards the jump target.
    Launch { target_pos: BlockPos },
    /// Flies on.
    Glide,
    /// Lands.
    Land,
    /// Moves on towards the slide target.
    SlideToward { target: P },
}

/// How the breeze takes a hit.
#[derive(Clone, Copy, Debug, PartialEq, Eq, Structural)]
pub enum BreezeDamage {
    /// No damage: the attacker is another breeze.
    Immune,
    /// The projectile bounces back; no damage.
    Deflect,
    /// The damage goes through.
    Hurt,
}

/// The parts of a breeze that its rules read and write.
#[derive(Clone, Copy, Debug)]
pub struct BreezeEntity<P> {
    pub whirl_sound_timer: i32,
    pub ambient_sound_timer: i32,
    pub jump_cooldown: i32,
    pub shoot_cooldown: i32,
    pub state: BreezeState<P>,
}

/// The breeze after the state machine ran a tick with the given senses, and
/// what it does.
pub open spec fn spec_breeze_step<P>(b: BreezeEntity<P>, s: BreezeSenses<P>) -> (
    BreezeEntity<P>,
    BreezeAction<P>,
) {
    match b.state {
        BreezeState::Standing => spec_standing_step(b, s),
        BreezeState::PreparingShoot { ticks, target_id } => if !s.shot_target_present {
            (BreezeEntity { state: BreezeState::Standing, ..b }, BreezeAction::StandUp)
        } else if ticks <= 0 {
            (
                BreezeEntity { state: BreezeState::ShootingRecover { ticks: 4, target_id }, ..b },
                BreezeAction::Shoot { target_id },
            )
        } else {
            (
                BreezeEntity {
                    state: BreezeState::PreparingShoot { ticks: (ticks - 1) as i32, target_id },
                    ..b
                },
                BreezeAction::Aim { target_id },
            )
        },
        BreezeState::ShootingRecover { ticks, target_id } => if ticks <= 0 {
            (
                BreezeEntity { shoot_cooldown: 10, state: BreezeState::Standing, ..b },
                BreezeAction::StandUp,
            )
        } else {
            (
                BreezeEntity {
                    state: BreezeState::ShootingRecover { ticks: (ticks - 1) as i32, target_id },
                    ..b
                },
                BreezeAction::Recover,
            )
        },
        BreezeState::PreparingJump { ticks, target_pos } => if ticks <= 0 {
            if s.launch_possible {
                (
                    BreezeEntity { state: BreezeState::LongJumping { ticks: 60 }, ..b },
                    BreezeAction::Launch { target_pos },
                )
            } else {
                (BreezeEntity { state: BreezeState::Standing, ..b }, BreezeAction::StandUp)
            }
        } else {
            (
                BreezeEntity {
                    state: BreezeState::PreparingJump { ticks: (ticks - 1) as i32, target_pos },
                    ..b
                },
                BreezeAction::FaceJumpTarget { target_pos },
            )
        },
        BreezeState::LongJumping { ticks } => if s.on_ground || s.in_water || ticks <= 0 {
            (
                BreezeEntity {
                    jump_cooldown: 10,
                    shoot_cooldown: 0,
                    state: BreezeState::Standing,
                    ..b
                },
                BreezeAction::Land,
            )
        } else {
            (
                BreezeEntity { state: BreezeState::LongJumping { ticks: (ticks - 1) as i32 }, ..b },
                BreezeAction::Glide,
            )
        },
        BreezeState::Sliding { ticks, target } => if s.slide_arrived || ticks <= 0 {
            (
                BreezeEntity { shoot_cooldown: 0, state: BreezeState::Standing, ..b },
                BreezeAction::StandUp,
            )
        } else {
            (
                BreezeEntity {
                    state: BreezeState::Sliding { ticks: (ticks - 1) as i32, target },
                    ..b
                },
                BreezeAction::SlideToward { target },
            )
        },
    }
}

/// A standing breeze with a target within 24 blocks tries, in turn: sliding
/// away from a near target (on the ground), a shot (within 16 blocks, shot
/// cooldown over), a jump behind the target (not near, jump cooldown over,
/// room above), and sliding to a new spot (on the ground).  Each move needs
/// its point to have been found.
pub open spec fn spec_standing_step<P>(b: BreezeEntity<P>, s: BreezeSenses<P>) -> (
    BreezeEntity<P>,
    BreezeAction<P>,
) {
    match s.target {
        None => (b, BreezeAction::Idle),
        Some(t) => if t.range == TargetRange::Beyond {
            (b, BreezeAction::Idle)
        } else if t.range == TargetRange::Near && s.on_ground && s.slide_away is Some {
            (
                BreezeEntity {
                    state: BreezeState::Sliding { ticks: 20, target: s.slide_away->0 },
                    ..b
                },
                BreezeAction::SlideAway { target: s.slide_away->0 },
            )
        } else if b.shoot_cooldown <= 0 && t.range != TargetRange::Far {
            (
                BreezeEntity {
                    state: BreezeState::PreparingShoot { ticks: 15, target_id: t.entity_id },
                    ..b
                },
                BreezeAction::Inhale { target_id: t.entity_id },
            )
        } else if b.jump_cooldown <= 0 && t.range != TargetRange::Near && s.can_jump
            && s.jump_target is Some {
            (
                BreezeEntity {
                    state: BreezeState::PreparingJump { ticks: 10, target_pos: s.jump_target->0 },
                    ..b
                },
                BreezeAction::Charge { target_pos: s.jump_target->0 },
            )
        } else if s.on_ground && s.reposition is Some {
            (
                BreezeEntity {
                    state: BreezeState::Sliding { ticks: 30, target: s.reposition->0 },
                    ..b
                },
                BreezeAction::Reposition { target: s.reposition->0 },
            )
        } else {
            (b, BreezeAction::Idle)
        },
    }
}

/// The search for a standing spot near `base`: the k-th candidate lies
/// `k` blocks down for `k <= 10`, then `k - 10` blocks up.
pub open spec fn snap_candidate(base: BlockPos, k: int) -> BlockPos {
    if k <= 10 {
        BlockPos { x: base.x, y: (base.y - k) as i32, z: base.z }
    } else {
        BlockPos { x: base.x, y: (base.y + (k - 10)) as i32, z: base.z }
    }
}

pub open spec fn above(p: BlockPos) -> BlockPos {
    BlockPos { x: p.x, y: (p.y + 1) as i32, z: p.z }
}

/// The first candidate from the k-th on that is solid with air above; the
/// answer is the air block.
pub open spec fn spec_snap_from(world: BlockWorld, base: BlockPos, k: int) -> Option<BlockPos>
    decreases 21 - k,
{
    if k < 0 || k > 20 {
        None
    } else {
        let c = snap_candidate(base, k);
        if !spec_is_air(world.get_spec(c)) && spec_is_air(world.get_spec(above(c))) {
            Some(above(c))
        } else {
            spec_snap_from(world, base, k + 1)
        }
    }
}

/// A breeze may jump unless it stands on honey or one of the four blocks
/// above it is neither air nor water.
pub open spec fn spec_can_jump_from(world: BlockWorld, pos: BlockPos) -> bool {
    &&& world.get_spec(pos).block != Block::HoneyBlock
    &&& forall|i: int|
        1 <= i <= 4 ==> {
            let s = #[trigger] world.get_spec(BlockPos { x: pos.x, y: (pos.y + i) as i32, z: pos.z });
            spec_is_air(s) || s.block == Block::Water
        }
}

impl<P: Copy> BreezeEntity<P> {
    /// A new breeze, standing, both cooldowns at 10, its whirl timer drawn from
    /// 1..=80 and its idle-sound timer from 80..160.
    pub fn new() -> (r: BreezeEntity<P>)
        ensures
            1 <= r.whirl_sound_timer <= 80,
            80 <= r.ambient_sound_timer < 160,
            r.jump_cooldown == 10,
            r.shoot_cooldown == 10,
            r.state is Standing,
    {
        BreezeEntity {
            whirl_sound_timer: random_range_i32(1, 81),
            ambient_sound_timer: random_range_i32(80, 160),
            jump_cooldown: 10,
            shoot_cooldown: 10,
            state: BreezeState::Standing,
        }
    }

    /// A breeze attacks players and iron golems.
    pub fn can_attack(kind: EntityKind) -> (r: bool)
        ensures
            r == (kind == EntityKind::Player || kind == EntityKind::IronGolem),
    {
        kind == EntityKind::Player || kind == EntityKind::IronGolem
    }

    /// Runs both sound timers down by one.  A timer that reaches zero plays its
    /// sound (the first answer for the whirl, the second for the idle sound)
    /// and is set anew: the whirl from 1..=80, the idle sound from 80..160.
    pub fn tick_sound_timers(&mut self) -> (r: (bool, bool))
        requires
            old(self).whirl_sound_timer > i32::MIN,
            old(self).ambient_sound_timer > i32::MIN,
        ensures
            r.0 == (old(self).whirl_sound_timer - 1 <= 0),
            r.1 == (old(self).ambient_sound_timer - 1 <= 0),
            r.0 ==> 1 <= final(self).whirl_sound_timer <= 80,
            !r.0 ==> final(self).whirl_sound_timer == old(self).whirl_sound_timer - 1,
            r.1 ==> 80 <= final(self).ambient_sound_timer < 160,
            !r.1 ==> final(self).ambient_sound_timer == old(self).ambient_sound_timer - 1,
            final(self).jump_cooldown == old(self).jump_cooldown,
            final(self).shoot_cooldown == old(self).shoot_cooldown,
            final(self).state == old(self).state,
    {
        self.whirl_sound_timer = self.whirl_sound_timer - 1;
        let whirl = self.whirl_sound_timer <= 0;
        if whirl {
            self.whirl_sound_timer = random_range_i32(1, 81);
        }
        self.ambient_sound_timer = self.ambient_sound_timer - 1;
        let ambient = self.ambient_sound_timer <= 0;
        if ambient {
            self.ambient_sound_timer = random_range_i32(80, 160);
        }
        (whirl, ambient)
    }

    /// Each cooldown above zero goes down by one.
    pub fn tick_cooldowns(&mut self)
        ensures
            final(self).jump_cooldown == if old(self).jump_cooldown > 0 {
                old(self).jump_cooldown - 1
            } else {
                old(self).jump_cooldown as int
            },
            final(self).shoot_cooldown == if old(self).shoot_cooldown > 0 {
                old(self).shoot_cooldown - 1
            } else {
                old(self).shoot_cooldown as int
            },
            final(self).whirl_sound_timer == old(self).whirl_sound_timer,
            final(self).ambient_sound_timer == old(self).ambient_sound_timer,
            final(self).state == old(self).state,
    {
        if self.jump_cooldown > 0 {
            self.jump_cooldown = self.jump_cooldown - 1;
        }
        if self.shoot_cooldown > 0 {
            self.shoot_cooldown = self.shoot_cooldown - 1;
        }
    }

    fn standing_step(&mut self, s: &BreezeSenses<P>) -> (r: BreezeAction<P>)
        requires
            old(self).state is Standing,
        ensures
            (*final(self), r) == spec_standing_step(*old(self), *s),
    {
        match s.target {
            None => BreezeAction::Idle,
            Some(t) => {
                if t.range == TargetRange::Beyond {
                    return BreezeAction::Idle;
                }
                if t.range == TargetRange::Near && s.on_ground {
                    if let Some(away) = s.slide_away {
                        self.state = BreezeState::Sliding { ticks: 20, target: away };
                        return BreezeAction::SlideAway { target: away };
                    }
                }
                if self.shoot_cooldown <= 0 && t.range != TargetRange::Far {
                    self.state = BreezeState::PreparingShoot { ticks: 15, target_id: t.entity_id };
                    return BreezeAction::Inhale { target_id: t.entity_id };
                }
                if self.jump_cooldown <= 0 && t.range != TargetRange::Near && s.can_jump {
                    if let Some(j) = s.jump_target {
                        self.state = BreezeState::PreparingJump { ticks: 10, target_pos: j };
                        return BreezeAction::Charge { target_pos: j };
                    }
                }
                if s.on_ground {
                    if let Some(spot) = s.reposition {
                        self.state = BreezeState::Sliding { ticks: 30, target: spot };
                        return BreezeAction::Reposition { target: spot };
                    }
                }
                BreezeAction::Idle
            },
        }
    }

    /// One tick of the breeze's state machine: the next state and what the
    /// breeze does, from what it senses (see `spec_breeze_step`).
    pub fn step(&mut self, s: &BreezeSenses<P>) -> (r: BreezeAction<P>)
        ensures
            (*final(self), r) == spec_breeze_step(*old(self), *s),
    {
        match self.state {
            BreezeState::Standing => self.standing_step(s),
            BreezeState::PreparingShoot { ticks, target_id } => {
                if !s.shot_target_present {
                    self.state = BreezeState::Standing;
                    BreezeAction::StandUp
                } else if ticks <= 0 {
                    self.state = BreezeState::ShootingRecover { ticks: 4, target_id };
                    BreezeAction::Shoot { target_id }
                } else {
                    self.state = BreezeState::PreparingShoot { ticks: ticks - 1, target_id };
                    BreezeAction::Aim { target_id }
                }
            },
            BreezeState::ShootingRecover { ticks, target_id } => {
                if ticks <= 0 {
                    self.shoot_cooldown = 10;
                    self.state = BreezeState::Standing;
                    BreezeAction::StandUp
                } else {
                    self.state = BreezeState::ShootingRecover { ticks: ticks - 1, target_id };
                    BreezeAction::Recover
                }
            },
            BreezeState::PreparingJump { ticks, target_pos } => {
                if ticks <= 0 {
                    if s.launch_possible {
                        self.state = BreezeState::LongJumping { ticks: 60 };
                        BreezeAction::Launch { target_pos }
                    } else {
                        self.state = BreezeState::Standing;
                        BreezeAction::StandUp
                    }
                } else {
                    self.state = BreezeState::PreparingJump { ticks: ticks - 1, target_pos };
                    BreezeAction::FaceJumpTarget { target_pos }
                }
            },
            BreezeState::LongJumping { ticks } => {
                if s.on_ground || s.in_water || ticks <= 0 {
                    self.jump_cooldown = 10;
                    self.shoot_cooldown = 0;
                    self.state = BreezeState::Standing;
                    BreezeAction::Land
                } else {
                    self.state = BreezeState::LongJumping { ticks: ticks - 1 };
                    BreezeAction::Glide
                }
            },
            BreezeState::Sliding { ticks, target } => {
                if s.slide_arrived || ticks <= 0 {
                    self.shoot_cooldown = 0;
                    self.state = BreezeState::Standing;
                    BreezeAction::StandUp
                } else {
                    self.state = BreezeState::Sliding { ticks: ticks - 1, target };
                    BreezeAction::SlideToward { target }
                }
            },
        }
    }

    /// A whole tick of a breeze: nothing for a dead one; else the sound
    /// timers run (`tick_sound_timers`), then the cooldowns (`tick_cooldowns`),
    /// then the state machine (`step`) on what the breeze senses.  Answers
    /// whether the whirl and the idle sound play, and what the breeze does.
    pub fn mob_tick(&mut self, alive: bool, s: &BreezeSenses<P>) -> (r: Option<(bool, bool, BreezeAction<P>)>)
        requires
            old(self).whirl_sound_timer > i32::MIN,
            old(self).ambient_sound_timer > i32::MIN,
        ensures
            !alive ==> r is None && *final(self) == *old(self),
            alive ==> r is Some,
            alive ==> {
                let (whirl, idle, action) = r->0;
                &&& whirl == (old(self).whirl_sound_timer - 1 <= 0)
                &&& idle == (old(self).ambient_sound_timer - 1 <= 0)
                &&& whirl ==> 1 <= final(self).whirl_sound_timer <= 80
                &&& !whirl ==> final(self).whirl_sound_timer == old(self).whirl_sound_timer - 1
                &&& idle ==> 80 <= final(self).ambient_sound_timer < 160
                &&& !idle ==> final(self).ambient_sound_timer == old(self).ambient_sound_timer - 1
                &&& (*final(self), action) == spec_breeze_step(
                    BreezeEntity {
                        whirl_sound_timer: final(self).whirl_sound_timer,
                        ambient_sound_timer: final(self).ambient_sound_timer,
                        jump_cooldown: if old(self).jump_cooldown > 0 {
                            (old(self).jump_cooldown - 1) as i32
                        } else {
                            old(self).jump_cooldown
                        },
                        shoot_cooldown: if old(self).shoot_cooldown > 0 {
                            (old(self).shoot_cooldown - 1) as i32
                        } else {
                            old(self).shoot_cooldown
                        },
                        state: old(self).state,
                    },
                    *s,
                )
            },
    {
        if !alive {
            return None;
        }
        let (whirl, idle) = self.tick_sound_timers();
        self.tick_cooldowns();
        let ghost cooled = *self;
        let action = self.step(s);
        proof {
            assert(self.whirl_sound_timer == cooled.whirl_sound_timer);
            assert(self.ambient_sound_timer == cooled.ambient_sound_timer);
        }
        Some((whirl, idle, action))
    }

    /// A hit: another breeze does no harm; a projectile other than a wind
    /// charge is deflected; anything else hurts and cuts the jump cooldown to 2.
    pub fn pre_damage(&mut self, source_is_breeze: bool, is_projectile: bool, is_wind_charge: bool) -> (r:
        BreezeDamage)
        ensures
            r == if source_is_breeze {
                BreezeDamage::Immune
            } else if is_projectile && !is_wind_charge {
                BreezeDamage::Deflect
            } else {
                BreezeDamage::Hurt
            },
            final(self).jump_cooldown == if r == BreezeDamage::Hurt {
                2
            } else {
                old(self).jump_cooldown as int
            },
            final(self).shoot_cooldown == old(self).shoot_cooldown,
            final(self).whirl_sound_timer == old(self).whirl_sound_timer,
            final(self).ambient_sound_timer == old(self).ambient_sound_timer,
            final(self).state == old(self).state,
    {
        if source_is_breeze {
            return BreezeDamage::Immune;
        }
        if is_projectile && !is_wind_charge {
            return BreezeDamage::Deflect;
        }
        self.jump_cooldown = 2;
        BreezeDamage::Hurt
    }

    /// The saved timers: whirl timer, jump cooldown, shot cooldown.
    pub fn saved_timers(&self) -> (r: (i32, i32, i32))
        ensures
            r == (self.whirl_sound_timer, self.jump_cooldown, self.shoot_cooldown),
    {
        (self.whirl_sound_timer, self.jump_cooldown, self.shoot_cooldown)
    }

    /// Loads the saved timers; a missing one keeps its value.
    pub fn read_saved_timers(&mut self, whirl: Option<i32>, jump: Option<i32>, shoot: Option<i32>)
        ensures
            *final(self) == spec_read_timers(*old(self), whirl, jump, shoot),
    {
        if let Some(v) = whirl {
            self.whirl_sound_timer = v;
        }
        if let Some(v) = jump {
            self.jump_cooldown = v;
        }
        if let Some(v) = shoot {
            self.shoot_cooldown = v;
        }
    }
}

/// The breeze after loading saved timers; a missing one keeps its value.
pub open spec fn spec_read_timers<P>(b: BreezeEntity<P>, whirl: Option<i32>, jump: Option<i32>, shoot: Option<i32>) -> BreezeEntity<P> {
    BreezeEntity {
        whirl_sound_timer: match whirl {
            Some(v) => v,
            None => b.whirl_sound_timer,
        },
        jump_cooldown: match jump {
            Some(v) => v,
            None => b.jump_cooldown,
        },
        shoot_cooldown: match shoot {
            Some(v) => v,
            None => b.shoot_cooldown,
        },
        ..b
    }
}

/// The timers a breeze saves load back into any breeze unchanged.
pub proof fn law_breeze_timers_round_trip<P>(b: BreezeEntity<P>, other: BreezeEntity<P>)
    ensures
        ({
            let loaded = spec_read_timers(other, Some(b.whirl_sound_timer), Some(b.jump_cooldown), Some(b.shoot_cooldown));
            (loaded.whirl_sound_timer, loaded.jump_cooldown, loaded.shoot_cooldown) == (b.whirl_sound_timer, b.jump_cooldown, b.shoot_cooldown)
        }),
{
}

/// The standing spot nearest below (up to 10 blocks down), else above (up to
/// 10 blocks up), of `base`: the air block on top of the first solid
/// candidate.
pub fn snap_to_surface(world: &BlockWorld, base: &BlockPos) -> (r: Option<BlockPos>)
    requires
        bounded(*base, COORD_LIMIT as int),
    ensures
        r == spec_snap_from(*world, *base, 0),
{
    let mut k: i32 = 0;
    while k <= 20
        invariant
            0 <= k <= 21,
            bounded(*base, COORD_LIMIT as int),
            spec_snap_from(*world, *base, 0) == spec_snap_from(*world, *base, k as int),
        decreases 21 - k,
    {
        let y = if k <= 10 {
            base.y - k
        } else {
            base.y + (k - 10)
        };
        let c = BlockPos::new(base.x, y, base.z);
        let up = BlockPos::new(base.x, y + 1, base.z);
        assert(c == snap_candidate(*base, k as int));
        assert(up == above(c));
        if !world.get_block_state(&c).is_air() && world.get_block_state(&up).is_air() {
            return Some(up);
        }
        k += 1;
    }
    None
}

/// Whether a breeze standing at `pos` may leap (see `spec_can_jump_from`).
pub fn can_jump_from_current_pos(world: &BlockWorld, pos: &BlockPos) -> (r: bool)
    requires
        bounded(*pos, COORD_LIMIT as int),
    ensures
        r == spec_can_jump_from(*world, *pos),
{
    if world.get_block(pos) == Block::HoneyBlock {
        return false;
    }
    let mut i: i32 = 1;
    while i <= 4
        invariant
            1 <= i <= 5,
            bounded(*pos, COORD_LIMIT as int),
            world.get_spec(*pos).block != Block::HoneyBlock,
            forall|j: int|
                1 <= j < i ==> {
                    let s = #[trigger] world.get_spec(
                        BlockPos { x: pos.x, y: (pos.y + j) as i32, z: pos.z },
                    );
                    spec_is_air(s) || s.block == Block::Water
                },
        decreases 5 - i,
    {
        let q = BlockPos::new(pos.x, pos.y + i, pos.z);
        let s = world.get_block_state(&q);
        if !s.is_air() && s.block != Block::Water {
            return false;
        }
        i += 1;
    }
    true
}

} // verus!
