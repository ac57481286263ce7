use vstd::prelude::*;

use crate::geometry::{bounded, spec_offset, BlockDirection, BlockPos, COORD_LIMIT};
use crate::world::{spec_is_air, Block, BlockWorld};

verus! {

/// The state of a potent sulfur block, which drives a geyser through the
/// water column above it.
#[derive(Clone, Copy, Debug, PartialEq, Eq, Structural)]
pub enum PotentSulfurState {
    /// No water above.
    Dry,
    /// Water above, no heat below.
    Wet,
    /// Magma below: waiting to erupt.
    Dormant,
    /// Magma below: erupting.
    Erupting,
    /// Lava below: erupting without end.
    Continuous,
}

pub struct PotentSulfurBlock;

pub open spec fn spec_valid_state(world: BlockWorld, pos: BlockPos, current: PotentSulfurState) -> PotentSulfurState {
    let above = world.get_spec(spec_offset(pos, BlockDirection::Up, 1)).block;
    let below = world.get_spec(spec_offset(pos, BlockDirection::Down, 1)).block;
    if above != Block::Water {
        PotentSulfurState::Dry
    } else if below == Block::Lava {
        PotentSulfurState::Continuous
    } else if below == Block::MagmaBlock {
        if current == PotentSulfurState::Erupting {
            PotentSulfurState::Erupting
        } else {
            PotentSulfurState::Dormant
        }
    } else {
        PotentSulfurState::Wet
    }
}

impl PotentSulfurBlock {
    /// The state the block takes from its surroundings: dry without water
    /// above; with water, continuous over lava, dormant over magma (an
    /// eruption in progress goes on), else wet.
    pub fn valid_block_state(world: &BlockWorld, pos: &BlockPos, current: PotentSulfurState) -> (r:
        PotentSulfurState)
        requires
            bounded(*pos, COORD_LIMIT as int),
        ensures
            r == spec_valid_state(*world, *pos, current),
    {
        let above = world.get_block(&pos.up());
        if above != Block::Water {
            return PotentSulfurState::Dry;
        }
        let below = world.get_block(&pos.down());
        if below == Block::Lava {
            return PotentSulfurState::Continuous;
        }
        if below == Block::MagmaBlock {
            if current == PotentSulfurState::Erupting {
                return current;
            }
            return PotentSulfurState::Dormant;
        }
        PotentSulfurState::Wet
    }

    /// Placing the block gives it the state its surroundings call for.
    pub fn on_place(world: &BlockWorld, pos: &BlockPos) -> (r: PotentSulfurState)
        requires
            bounded(*pos, COORD_LIMIT as int),
        ensures
            r == spec_valid_state(*world, *pos, PotentSulfurState::Dry),
    {
        Self::valid_block_state(world, pos, PotentSulfurState::Dry)
    }

    /// The eruption sound a placed block starts with: the continuous one over
    /// lava, the plain one while erupting, none otherwise.
    pub fn placed_sound(state: PotentSulfurState) -> (r: Option<EruptionSound>)
        ensures
            r == if state == PotentSulfurState::Continuous {
                Some(EruptionSound::ContinuousEruption)
            } else if state == PotentSulfurState::Erupting {
                Some(EruptionSound::Eruption)
            } else {
                None
            },
    {
        if state == PotentSulfurState::Continuous {
            Some(EruptionSound::ContinuousEruption)
        } else if state == PotentSulfurState::Erupting {
            Some(EruptionSound::Eruption)
        } else {
            None
        }
    }
}

/// The sounds of a geyser's eruption.
#[derive(Clone, Copy, Debug, PartialEq, Eq, Structural)]
pub enum EruptionSound {
    Eruption,
    ContinuousEruption,
}

/// How far above the block the gas source is looked for.
pub const GAS_SEARCH_HEIGHT: i32 = 5;

pub open spec fn column_pos(origin: BlockPos, k: int) -> BlockPos {
    spec_offset(origin, BlockDirection::Up, k)
}

/// The gas source above `origin`, scanning from height `k`: the first block
/// that is not water, if it is air and within five blocks.
pub open spec fn spec_gas_source_from(world: BlockWorld, origin: BlockPos, k: int) -> Option<
    BlockPos,
>
    decreases 6 - k,
{
    if k < 1 || k > GAS_SEARCH_HEIGHT {
        None
    } else {
        let b = world.get_spec(column_pos(origin, k));
        if b.block != Block::Water {
            if spec_is_air(b) {
                Some(column_pos(origin, k))
            } else {
                None
            }
        } else {
            spec_gas_source_from(world, origin, k + 1)
        }
    }
}

/// The block entity of a potent sulfur block: its geyser timer.
pub struct PotentSulfurBlockEntity {
    pub position: BlockPos,
    pub waiting_countdown: i32,
}

/// What the geyser does in one tick.
#[derive(Clone, Copy, Debug, PartialEq, Eq, Structural)]
pub struct GeyserPlan {
    /// Rising sulfur bubbles.
    pub bubbles: bool,
    /// A gas cloud at the water surface.
    pub gas_cloud: bool,
    /// Geyser particles.
    pub geyser_particles: bool,
    /// Nausea for those near the gas source.
    pub nausea: bool,
    /// The eruption timer runs.
    pub countdown: bool,
    /// Entities above are pushed up.
    pub launch: bool,
}

impl PotentSulfurBlockEntity {
    pub fn new(position: BlockPos) -> (r: PotentSulfurBlockEntity)
        ensures
            r.position == position,
            r.waiting_countdown == -1,
    {
        PotentSulfurBlockEntity { position, waiting_countdown: -1 }
    }

    pub fn reset_countdown(&mut self)
        ensures
            final(self).waiting_countdown == -1,
            final(self).position == old(self).position,
    {
        self.waiting_countdown = -1;
    }

    /// Loaded from saved data: a missing countdown is -1.
    pub fn from_saved(position: BlockPos, countdown: Option<i32>) -> (r: PotentSulfurBlockEntity)
        ensures
            r.position == position,
            r.waiting_countdown == spec_loaded_countdown(countdown),
    {
        let c = match countdown {
            Some(c) => c,
            None => -1,
        };
        PotentSulfurBlockEntity { position, waiting_countdown: c }
    }

    /// The countdown to save: none while it is -1.
    pub fn saved_countdown(&self) -> (r: Option<i32>)
        ensures
            r == spec_saved_countdown(self.waiting_countdown),
    {
        if self.waiting_countdown != -1 {
            Some(self.waiting_countdown)
        } else {
            None
        }
    }

    /// Finds the gas source: the first non-water block straight above the
    /// geyser within five blocks, when it is air.
    pub fn find_noxious_gas_source_block(world: &BlockWorld, origin: BlockPos) -> (r: Option<
        BlockPos,
    >)
        requires
            bounded(origin, COORD_LIMIT as int),
        ensures
            r == spec_gas_source_from(*world, origin, 1),
    {
        let mut k: i32 = 1;
        while k <= GAS_SEARCH_HEIGHT
            invariant
                1 <= k <= GAS_SEARCH_HEIGHT + 1,
                bounded(origin, COORD_LIMIT as int),
                spec_gas_source_from(*world, origin, 1) == spec_gas_source_from(
                    *world,
                    origin,
                    k as int,
                ),
            decreases GAS_SEARCH_HEIGHT + 1 - k,
        {
            let current_pos = origin.offset_dir(BlockDirection::Up, k);
            let block_state = world.get_block_state(&current_pos);
            if block_state.block != Block::Water {
                if block_state.is_air() {
                    return Some(current_pos);
                }
                return None;
            }
            k += 1;
        }
        None
    }

    /// The number of water blocks between the geyser and the gas source at
    /// height `source_y`, at least one.
    pub fn water_blocks(&self, source_y: i32) -> (r: i32)
        requires
            self.position.y < source_y <= self.position.y + GAS_SEARCH_HEIGHT,
        ensures
            r == if source_y - self.position.y - 1 < 1 {
                1
            } else {
                source_y - self.position.y - 1
            },
            1 <= r <= 4,
    {
        let w = source_y - self.position.y - 1;
        if w < 1 {
            1
        } else {
            w
        }
    }

    /// What runs in a tick at `game_time`, in state `state`, when the gas
    /// source was found or not.
    #[verifier::spinoff_prover]
    pub fn plan(state: PotentSulfurState, game_time: i64, source_found: bool) -> (r: GeyserPlan)
        ensures
            state == PotentSulfurState::Dry ==> r == (GeyserPlan {
                bubbles: false,
                gas_cloud: false,
                geyser_particles: false,
                nausea: false,
                countdown: false,
                launch: false,
            }),
            state != PotentSulfurState::Dry ==> r == (GeyserPlan {
                bubbles: source_found,
                gas_cloud: source_found && game_time % 20 == 0,
                geyser_particles: source_found && (state == PotentSulfurState::Erupting || state
                    == PotentSulfurState::Continuous) && game_time % 3 == 0,
                nausea: source_found && (state == PotentSulfurState::Wet || state
                    == PotentSulfurState::Dormant) && game_time % 10 == 0,
                countdown: source_found && (state == PotentSulfurState::Dormant || state
                    == PotentSulfurState::Erupting) && game_time % 20 == 0,
                launch: source_found && (state == PotentSulfurState::Erupting || state
                    == PotentSulfurState::Continuous),
            }),
    {
        if state == PotentSulfurState::Dry {
            return GeyserPlan {
                bubbles: false,
                gas_cloud: false,
                geyser_particles: false,
                nausea: false,
                countdown: false,
                launch: false,
            };
        }
        let every_20 = game_time % 20 == 0;
        let every_10 = game_time % 10 == 0;
        let every_3 = game_time % 3 == 0;
        let erupting = state == PotentSulfurState::Erupting || state
            == PotentSulfurState::Continuous;
        let quiet = state == PotentSulfurState::Wet || state == PotentSulfurState::Dormant;
        let timed = state == PotentSulfurState::Dormant || state == PotentSulfurState::Erupting;
        GeyserPlan {
            bubbles: source_found,
            gas_cloud: source_found && every_20,
            geyser_particles: source_found && erupting && every_3,
            nausea: source_found && quiet && every_10,
            countdown: source_found && timed && every_20,
            launch: source_found && erupting,
        }
    }

    /// One step of the eruption timer (run every 20 ticks while dormant or
    /// erupting).  An unset timer is drawn anew: dormant waits
    /// `10 * (water - 1) + roll16 + 15` steps, erupting lasts
    /// `(water - 1) + roll2 + 1`, where `roll16 < 16` and `roll2 < 2` are the
    /// rolls of the position's random source.  The timer then runs down by
    /// one; when it reaches zero the state flips between dormant and erupting.
    pub fn countdown_tick(
        &mut self,
        state: PotentSulfurState,
        water_blocks: i32,
        roll16: i32,
        roll2: i32,
    ) -> (r: Option<PotentSulfurState>)
        requires
            state == PotentSulfurState::Dormant || state == PotentSulfurState::Erupting,
            1 <= water_blocks <= 4,
            0 <= roll16 < 16,
            0 <= roll2 < 2,
        ensures
            final(self).position == old(self).position,
            ({
                let start = if old(self).waiting_countdown <= 0 {
                    if state == PotentSulfurState::Dormant {
                        10 * (water_blocks - 1) + roll16 + 15
                    } else {
                        (water_blocks - 1) + roll2 + 1
                    }
                } else {
                    old(self).waiting_countdown as int
                };
                &&& final(self).waiting_countdown == start - 1
                &&& r == if start - 1 == 0 {
                    Some(
                        if state == PotentSulfurState::Dormant {
                            PotentSulfurState::Erupting
                        } else {
                            PotentSulfurState::Dormant
                        },
                    )
                } else {
                    None
                }
            }),
    {
        let mut countdown = self.waiting_countdown;
        if countdown <= 0 {
            if state == PotentSulfurState::Dormant {
                countdown = 10 * (water_blocks - 1) + roll16 + 15;
            } else {
                countdown = (water_blocks - 1) + roll2 + 1;
            }
            self.waiting_countdown = countdown;
        }
        if countdown > 0 {
            countdown -= 1;
            self.waiting_countdown = countdown;
        }
        if countdown == 0 {
            if state == PotentSulfurState::Dormant {
                return Some(PotentSulfurState::Erupting);
            } else {
                return Some(PotentSulfurState::Dormant);
            }
        }
        None
    }

    /// How high above the geyser entities are pushed: six blocks per block of
    /// water.
    pub fn launch_height(water_blocks: i32) -> (r: i32)
        requires
            1 <= water_blocks <= 4,
        ensures
            r == 6 * water_blocks,
    {
        6 * water_blocks
    }
}

/// What a tick at `game_time` in `state` runs, the gas source found or not
/// (see `PotentSulfurBlockEntity::plan`).
pub open spec fn spec_geyser_plan(state: PotentSulfurState, game_time: i64, found: bool) -> GeyserPlan {
    if state == PotentSulfurState::Dry {
        GeyserPlan {
            bubbles: false,
            gas_cloud: false,
            geyser_particles: false,
            nausea: false,
            countdown: false,
            launch: false,
        }
    } else {
        GeyserPlan {
            bubbles: found,
            gas_cloud: found && game_time % 20 == 0,
            geyser_particles: found && (state == PotentSulfurState::Erupting || state
                == PotentSulfurState::Continuous) && game_time % 3 == 0,
            nausea: found && (state == PotentSulfurState::Wet || state == PotentSulfurState::Dormant)
                && game_time % 10 == 0,
            countdown: found && (state == PotentSulfurState::Dormant || state
                == PotentSulfurState::Erupting) && game_time % 20 == 0,
            launch: found && (state == PotentSulfurState::Erupting || state
                == PotentSulfurState::Continuous),
        }
    }
}

/// The water blocks between a geyser at `pos` and its gas source at `source`,
/// at least one.
pub open spec fn spec_water_between(pos: BlockPos, source: BlockPos) -> int {
    if source.y - pos.y - 1 < 1 {
        1
    } else {
        source.y - pos.y - 1
    }
}

/// The eruption timer after one step (see `countdown_tick`): the timer, and
/// the state it flips to, if any.
pub open spec fn spec_countdown_step(
    countdown: i32,
    state: PotentSulfurState,
    water: int,
    roll16: int,
    roll2: int,
) -> (int, Option<PotentSulfurState>) {
    let start = if countdown <= 0 {
        if state == PotentSulfurState::Dormant {
            10 * (water - 1) + roll16 + 15
        } else {
            (water - 1) + roll2 + 1
        }
    } else {
        countdown as int
    };
    (
        start - 1,
        if start - 1 == 0 {
            Some(
                if state == PotentSulfurState::Dormant {
                    PotentSulfurState::Erupting
                } else {
                    PotentSulfurState::Dormant
                },
            )
        } else {
            None
        },
    )
}

proof fn lemma_gas_source_above(world: BlockWorld, origin: BlockPos, k: int)
    requires
        bounded(origin, COORD_LIMIT as int),
        k >= 1,
    ensures
        spec_gas_source_from(world, origin, k) matches Some(p) ==> p.x == origin.x && p.z
            == origin.z && origin.y + k <= p.y <= origin.y + GAS_SEARCH_HEIGHT,
    decreases 6 - k,
{
    if k <= GAS_SEARCH_HEIGHT {
        lemma_gas_source_above(world, origin, k + 1);
    }
}

impl PotentSulfurBlockEntity {
    /// A whole tick of the geyser in `state` at `game_time`.  Nothing runs
    /// when the block at its position is no longer potent sulfur.  Else: find
    /// the gas source, work out what runs (`plan`), step the eruption timer when it
    /// runs (`countdown_tick`, with the rolls of the position's random source)
    /// and, while erupting, the height entities are launched to
    /// (`launch_height`).  Answers the plan, the state the block flips to, and
    /// the launch height.
    pub fn tick(
        &mut self,
        world: &BlockWorld,
        state: PotentSulfurState,
        game_time: i64,
        roll16: i32,
        roll2: i32,
    ) -> (r: (GeyserPlan, Option<PotentSulfurState>, Option<i32>))
        requires
            bounded(old(self).position, COORD_LIMIT as int),
            0 <= roll16 < 16,
            0 <= roll2 < 2,
        ensures
            final(self).position == old(self).position,
            world.get_spec(old(self).position).block != Block::PotentSulfur ==> r == (
                spec_geyser_plan(PotentSulfurState::Dry, game_time, false),
                None::<PotentSulfurState>,
                None::<i32>,
            ) && final(self).waiting_countdown == old(self).waiting_countdown,
            world.get_spec(old(self).position).block == Block::PotentSulfur ==> ({
                let source = spec_gas_source_from(*world, old(self).position, 1);
                let water = spec_water_between(old(self).position, source->0);
                &&& r.0 == spec_geyser_plan(state, game_time, source is Some)
                &&& !r.0.countdown ==> r.1 is None && final(self).waiting_countdown == old(
                    self,
                ).waiting_countdown
                &&& r.0.countdown ==> (final(self).waiting_countdown as int, r.1)
                    == spec_countdown_step(old(self).waiting_countdown, state, water, roll16 as int, roll2 as int)
                &&& r.2 == if r.0.launch {
                    Some((6 * water) as i32)
                } else {
                    None
                }
            }),
    {
        if world.get_block(&self.position) != Block::PotentSulfur {
            let idle = Self::plan(PotentSulfurState::Dry, game_time, false);
            return (idle, None, None);
        }
        let source = Self::find_noxious_gas_source_block(world, self.position);
        proof {
            lemma_gas_source_above(*world, self.position, 1);
        }
        let plan = Self::plan(state, game_time, source.is_some());
        let mut flip: Option<PotentSulfurState> = None;
        let mut launch: Option<i32> = None;
        if let Some(src) = source {
            let water = self.water_blocks(src.y);
            if plan.countdown {
                flip = self.countdown_tick(state, water, roll16, roll2);
            }
            if plan.launch {
                launch = Some(Self::launch_height(water));
            }
        }
        (plan, flip, launch)
    }
}

/// The countdown saved: none while it is unset (-1).
pub open spec fn spec_saved_countdown(c: i32) -> Option<i32> {
    if c == -1 {
        None
    } else {
        Some(c)
    }
}

/// The countdown loaded: the saved one, -1 when none was saved.
pub open spec fn spec_loaded_countdown(saved: Option<i32>) -> i32 {
    match saved {
        Some(c) => c,
        None => -1i32,
    }
}

/// The eruption countdown loads back as it was saved, unset ones included.
pub proof fn law_countdown_round_trip(c: i32)
    ensures
        spec_loaded_countdown(spec_saved_countdown(c)) == c,
{
}

/// An eruption, once started, always ends: the timer drawn for it is between
/// 1 and 5 steps.
pub proof fn law_eruption_is_short(water_blocks: int, roll2: int)
    requires
        1 <= water_blocks <= 4,
        0 <= roll2 < 2,
    ensures
        1 <= (water_blocks - 1) + roll2 + 1 <= 5,
{
}

/// The i-th of the 17 x 17 x 17 positions within 8 blocks of `p` that an
/// eruption shakes, x outermost, then y, then z.
pub open spec fn vibration_pos(p: BlockPos, i: int) -> BlockPos {
    BlockPos {
        x: (p.x + (i / 289 - 8)) as i32,
        y: (p.y + ((i / 17) % 17 - 8)) as i32,
        z: (p.z + (i % 17 - 8)) as i32,
    }
}

pub open spec fn is_sculk_sensor(b: Block) -> bool {
    b == Block::SculkSensor || b == Block::CalibratedSculkSensor
}

/// The sculk sensors among the first `n` shaken positions, in scan order.
pub open spec fn spec_sensors(world: BlockWorld, p: BlockPos, n: int) -> Seq<BlockPos>
    decreases n,
{
    if n <= 0 {
        Seq::empty()
    } else if is_sculk_sensor(world.get_spec(vibration_pos(p, n - 1)).block) {
        spec_sensors(world, p, n - 1).push(vibration_pos(p, n - 1))
    } else {
        spec_sensors(world, p, n - 1)
    }
}

/// The sculk sensors an eruption (or its end) triggers: those within 8
/// blocks along each axis, in scan order.  Each is triggered with the
/// frequency of the event (see `vibration_frequency`).
pub fn sculk_sensors_near(world: &BlockWorld, pos: &BlockPos) -> (r: Vec<BlockPos>)
    requires
        bounded(*pos, COORD_LIMIT as int),
    ensures
        r@ == spec_sensors(*world, *pos, 4913),
{
    let mut r: Vec<BlockPos> = Vec::new();
    let mut i: i32 = 0;
    while i < 4913
        invariant
            0 <= i <= 4913,
            bounded(*pos, COORD_LIMIT as int),
            r@ == spec_sensors(*world, *pos, i as int),
        decreases 4913 - i,
    {
        let p = BlockPos {
            x: pos.x + (i / 289 - 8),
            y: pos.y + ((i / 17) % 17 - 8),
            z: pos.z + (i % 17 - 8),
        };
        assert(p == vibration_pos(*pos, i as int));
        let b = world.get_block(&p);
        if b == Block::SculkSensor || b == Block::CalibratedSculkSensor {
            r.push(p);
        }
        i += 1;
    }
    r
}

/// The vibration frequency of a state change: 10 when an eruption starts, 11
/// when it ends.
pub fn vibration_frequency(new_state: PotentSulfurState) -> (r: u8)
    ensures
        r == if new_state == PotentSulfurState::Erupting {
            10u8
        } else {
            11u8
        },
{
    if new_state == PotentSulfurState::Erupting {
        10
    } else {
        11
    }
}

} // verus!
