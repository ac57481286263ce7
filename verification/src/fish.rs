use vstd::prelude::*;

use crate::entity::Entity;
use crate::rng::random_range_i32;

verus! {

/// Air a water creature has when it leaves the water.
pub const MAX_AIR: i32 = 300;

/// Once air falls this low the creature takes drowning damage.
pub const DROWN_AIR: i32 = -20;

pub const STATE_SMALL: i32 = 0;
pub const STATE_MID: i32 = 1;
pub const STATE_FULL: i32 = 2;

/// Ticks between two stings of a puffed-up pufferfish.
pub const STING_COOLDOWN: i32 = 20;

/// The new air of a water creature after one tick, and whether it drowns.
pub open spec fn spec_air_tick(air: i32, in_water: bool) -> (i32, bool) {
    if in_water {
        (MAX_AIR, false)
    } else if air > i32::MIN && air - 1 <= DROWN_AIR {
        (0, true)
    } else if air > i32::MIN {
        ((air - 1) as i32, false)
    } else {
        (i32::MAX, false)
    }
}

/// One tick of breathing: out of water the air runs down by one, and when
/// it reaches -20 the creature takes drowning damage and the count restarts
/// at 0; in water the air is full again.
pub fn air_tick(air: i32, in_water: bool) -> (r: (i32, bool))
    ensures
        r == spec_air_tick(air, in_water),
{
    if !in_water {
        let next = air.wrapping_sub(1);
        if next <= DROWN_AIR {
            (0, true)
        } else {
            (next, false)
        }
    } else {
        (MAX_AIR, false)
    }
}

pub struct CodEntity {
    pub entity: Entity,
    pub from_bucket: bool,
    pub air_supply: i32,
}

impl CodEntity {
    pub fn new(entity: Entity) -> (r: CodEntity)
        ensures
            r.entity == entity,
            !r.from_bucket,
            r.air_supply == MAX_AIR,
    {
        CodEntity { entity, from_bucket: false, air_supply: MAX_AIR }
    }

    /// Loads the saved `FromBucket` flag; without one the cod keeps its own.
    pub fn read_saved(&mut self, from_bucket: Option<bool>)
        ensures
            final(self).from_bucket == match from_bucket {
                Some(b) => b,
                None => old(self).from_bucket,
            },
            final(self).entity == old(self).entity,
            final(self).air_supply == old(self).air_supply,
    {
        if let Some(b) = from_bucket {
            self.set_from_bucket(b);
        }
    }

    pub fn is_from_bucket(&self) -> (r: bool)
        ensures
            r == self.from_bucket,
    {
        self.from_bucket
    }

    pub fn set_from_bucket(&mut self, from_bucket: bool)
        ensures
            final(self).from_bucket == from_bucket,
            final(self).entity == old(self).entity,
            final(self).air_supply == old(self).air_supply,
    {
        self.from_bucket = from_bucket;
    }

    /// A fish caught in a bucket is never despawned.
    pub fn remove_when_far_away(&self) -> (r: bool)
        ensures
            r == !self.from_bucket,
    {
        !self.from_bucket
    }

    /// A fish caught in a bucket is kept when its chunk is saved.
    pub fn requires_custom_persistence(&self) -> (r: bool)
        ensures
            r == self.from_bucket,
    {
        self.from_bucket
    }

    /// Breathes for one tick; returns whether the cod takes drowning damage.
    pub fn breathe(&mut self, in_water: bool) -> (r: bool)
        ensures
            (final(self).air_supply, r) == spec_air_tick(old(self).air_supply, in_water),
            final(self).from_bucket == old(self).from_bucket,
    {
        let (air, drowns) = air_tick(self.air_supply, in_water);
        self.air_supply = air;
        drowns
    }
}

/// The sound a pufferfish makes when its size changes.
#[derive(Clone, Copy, Debug, PartialEq, Eq, Structural)]
pub enum PuffSound {
    Silent,
    BlowUp,
    BlowOut,
}

pub struct PufferfishEntity {
    pub entity: Entity,
    pub from_bucket: bool,
    pub puff_state: i32,
    pub inflate_counter: i32,
    pub deflate_timer: i32,
    pub sting_cooldown: i32,
    pub air_supply: i32,
}

pub open spec fn wrapping_inc(v: i32) -> i32 {
    if v < i32::MAX {
        (v + 1) as i32
    } else {
        i32::MIN
    }
}

/// One tick of a pufferfish's size machine on (size, inflate counter,
/// deflate timer): a threat puffs a small fish to the middle size, a middle
/// one to full after more than 40 ticks of threat; without a threat a full
/// fish shrinks to the middle size after more than 60 ticks, a middle one to
/// small after more than 100.
pub open spec fn spec_puff_step(st: (i32, i32, i32), has_threat: bool) -> (i32, i32, i32) {
    let (puff, inflate, deflate) = st;
    if has_threat {
        let next = if puff == STATE_SMALL {
            STATE_MID
        } else if inflate > 40 && puff == STATE_MID {
            STATE_FULL
        } else {
            puff
        };
        (next, wrapping_inc(inflate), 0i32)
    } else if puff == STATE_SMALL {
        (STATE_SMALL, 0i32, deflate)
    } else {
        let next = if deflate > 60 && puff == STATE_FULL {
            STATE_MID
        } else if deflate > 100 && puff == STATE_MID {
            STATE_SMALL
        } else {
            puff
        };
        (next, 0i32, wrapping_inc(deflate))
    }
}

/// The machine after one tick for each entry of `threats`, in order.
pub open spec fn spec_puff_run(st: (i32, i32, i32), threats: Seq<bool>) -> (i32, i32, i32)
    decreases threats.len(),
{
    if threats.len() == 0 {
        st
    } else {
        spec_puff_step(spec_puff_run(st, threats.drop_last()), threats.last())
    }
}

/// Whatever threats come and go, a pufferfish that starts at one of the three
/// sizes stays at one of them, and each tick changes its size by at most one.
pub proof fn law_puff_state_stays_in_range(st: (i32, i32, i32), threats: Seq<bool>)
    requires
        STATE_SMALL <= st.0 <= STATE_FULL,
    ensures
        STATE_SMALL <= spec_puff_run(st, threats).0 <= STATE_FULL,
        threats.len() > 0 ==> -1 <= spec_puff_run(st, threats).0 - spec_puff_run(
            st,
            threats.drop_last(),
        ).0 <= 1,
    decreases threats.len(),
{
    if threats.len() > 0 {
        law_puff_state_stays_in_range(st, threats.drop_last());
    }
}

impl PufferfishEntity {
    pub fn new(entity: Entity) -> (r: PufferfishEntity)
        ensures
            r.entity == entity,
            !r.from_bucket,
            r.puff_state == STATE_SMALL,
            r.inflate_counter == 0,
            r.deflate_timer == 0,
            r.sting_cooldown == 0,
            r.air_supply == MAX_AIR,
    {
        PufferfishEntity {
            entity,
            from_bucket: false,
            puff_state: STATE_SMALL,
            inflate_counter: 0,
            deflate_timer: 0,
            sting_cooldown: 0,
            air_supply: MAX_AIR,
        }
    }

    pub fn is_from_bucket(&self) -> (r: bool)
        ensures
            r == self.from_bucket,
    {
        self.from_bucket
    }

    pub fn set_from_bucket(&mut self, from_bucket: bool)
        ensures
            final(self).from_bucket == from_bucket,
            final(self).puff_state == old(self).puff_state,
    {
        self.from_bucket = from_bucket;
    }

    /// A fish caught in a bucket is never despawned.
    pub fn remove_when_far_away(&self) -> (r: bool)
        ensures
            r == !self.from_bucket,
    {
        !self.from_bucket
    }

    /// A fish caught in a bucket is kept when its chunk is saved.
    pub fn requires_custom_persistence(&self) -> (r: bool)
        ensures
            r == self.from_bucket,
    {
        self.from_bucket
    }

    pub fn get_puff_state(&self) -> (r: i32)
        ensures
            r == self.puff_state,
    {
        self.puff_state
    }

    pub fn set_puff_state(&mut self, state: i32)
        ensures
            final(self).puff_state == state,
            final(self).from_bucket == old(self).from_bucket,
    {
        self.puff_state = state;
    }

    /// The puff state read back from saved data, clamped to the three sizes.
    pub fn read_puff_state(saved: i32) -> (r: i32)
        ensures
            r == if saved < STATE_SMALL {
                STATE_SMALL
            } else if saved > STATE_FULL {
                STATE_FULL
            } else {
                saved
            },
    {
        if saved < STATE_SMALL {
            STATE_SMALL
        } else if saved > STATE_FULL {
            STATE_FULL
        } else {
            saved
        }
    }

    /// One tick of the inflation state machine.  A threat close by puffs the
    /// fish up at once to the middle size, and to full size once it has stayed
    /// for more than 40 ticks; without a threat the fish deflates to the middle
    /// size after 60 ticks and to small after 100.
    pub fn puff_tick(&mut self, has_threat: bool) -> (r: PuffSound)
        ensures
            final(self).from_bucket == old(self).from_bucket,
            final(self).sting_cooldown == old(self).sting_cooldown,
            STATE_SMALL <= old(self).puff_state <= STATE_FULL ==> STATE_SMALL <= final(self).puff_state <= STATE_FULL,
            (final(self).puff_state, final(self).inflate_counter, final(self).deflate_timer)
                == spec_puff_step(
                (old(self).puff_state, old(self).inflate_counter, old(self).deflate_timer),
                has_threat,
            ),
            has_threat ==> {
                &&& final(self).inflate_counter == wrapping_inc(old(self).inflate_counter)
                &&& final(self).deflate_timer == 0
                &&& if old(self).puff_state == STATE_SMALL {
                    final(self).puff_state == STATE_MID && r == PuffSound::BlowUp
                } else if old(self).inflate_counter > 40 && old(self).puff_state == STATE_MID {
                    final(self).puff_state == STATE_FULL && r == PuffSound::BlowUp
                } else {
                    final(self).puff_state == old(self).puff_state && r == PuffSound::Silent
                }
            },
            !has_threat ==> {
                &&& final(self).inflate_counter == 0
                &&& if old(self).puff_state == STATE_SMALL {
                    final(self).deflate_timer == old(self).deflate_timer
                        && final(self).puff_state == STATE_SMALL && r == PuffSound::Silent
                } else {
                    &&& final(self).deflate_timer == wrapping_inc(old(self).deflate_timer)
                    &&& if old(self).deflate_timer > 60 && old(self).puff_state == STATE_FULL {
                        final(self).puff_state == STATE_MID && r == PuffSound::BlowOut
                    } else if old(self).deflate_timer > 100 && old(self).puff_state == STATE_MID {
                        final(self).puff_state == STATE_SMALL && r == PuffSound::BlowOut
                    } else {
                        final(self).puff_state == old(self).puff_state && r == PuffSound::Silent
                    }
                }
            },
    {
        let current_state = self.puff_state;
        if has_threat {
            let count = self.inflate_counter;
            self.inflate_counter = count.wrapping_add(1);
            self.deflate_timer = 0;
            if current_state == STATE_SMALL {
                self.puff_state = STATE_MID;
                return PuffSound::BlowUp;
            } else if count > 40 && current_state == STATE_MID {
                self.puff_state = STATE_FULL;
                return PuffSound::BlowUp;
            }
            PuffSound::Silent
        } else {
            self.inflate_counter = 0;
            if current_state != STATE_SMALL {
                let timer = self.deflate_timer;
                self.deflate_timer = timer.wrapping_add(1);
                if timer > 60 && current_state == STATE_FULL {
                    self.puff_state = STATE_MID;
                    return PuffSound::BlowOut;
                } else if timer > 100 && current_state == STATE_MID {
                    self.puff_state = STATE_SMALL;
                    return PuffSound::BlowOut;
                }
            }
            PuffSound::Silent
        }
    }

    /// The sting of a puffed-up fish, given its size at the start of the tick
    /// and whether a player is within touching reach.  Returns the damage
    /// dealt, if any.
    pub fn sting_tick(&mut self, state: i32, player_in_reach: bool) -> (r: Option<i32>)
        requires
            state < i32::MAX,
        ensures
            final(self).puff_state == old(self).puff_state,
            state <= STATE_SMALL ==> r is None && final(self).sting_cooldown == old(self).sting_cooldown,
            state > STATE_SMALL && old(self).sting_cooldown > 0 ==> r is None && final(self).sting_cooldown == old(self).sting_cooldown - 1,
            state > STATE_SMALL && old(self).sting_cooldown <= 0 && player_in_reach ==> r == Some(
                (1 + state) as i32,
            ) && final(self).sting_cooldown == STING_COOLDOWN,
            state > STATE_SMALL && old(self).sting_cooldown <= 0 && !player_in_reach ==> r is None
                && final(self).sting_cooldown == old(self).sting_cooldown,
    {
        if state > STATE_SMALL {
            let cd = self.sting_cooldown;
            if cd > 0 {
                self.sting_cooldown = cd - 1;
            } else if player_in_reach {
                self.sting_cooldown = STING_COOLDOWN;
                return Some(1 + state);
            }
        }
        None
    }

    /// Breathes for one tick; returns whether the fish takes drowning damage.
    pub fn breathe(&mut self, in_water: bool) -> (r: bool)
        ensures
            (final(self).air_supply, r) == spec_air_tick(old(self).air_supply, in_water),
            final(self).puff_state == old(self).puff_state,
    {
        let (air, drowns) = air_tick(self.air_supply, in_water);
        self.air_supply = air;
        drowns
    }
}

/// The variant at index `i` of the table of common tropical fish.
pub open spec fn spec_common_variant(i: int) -> i32 {
    if i == 0 {
        117506305
    } else if i == 1 {
        117899265
    } else if i == 2 {
        185008129
    } else if i == 3 {
        117441793
    } else if i == 4 {
        118161664
    } else if i == 5 {
        65536
    } else if i == 6 {
        50726144
    } else if i == 7 {
        67764993
    } else if i == 8 {
        234882305
    } else if i == 9 {
        67110144
    } else if i == 10 {
        117441025
    } else if i == 11 {
        16778497
    } else if i == 12 {
        101253888
    } else if i == 13 {
        50660352
    } else if i == 14 {
        918529
    } else if i == 15 {
        235340288
    } else if i == 16 {
        918273
    } else if i == 17 {
        67108865
    } else if i == 18 {
        917504
    } else if i == 19 {
        459008
    } else if i == 20 {
        67699456
    } else {
        67371009
    }
}

/// The body pattern at index `i`: small shapes are 0, 256, ..., 1280 and large
/// shapes the same plus one.
pub open spec fn spec_pattern(i: int) -> u16 {
    if i < 6 {
        (256 * i) as u16
    } else {
        (256 * (i - 6) + 1) as u16
    }
}

/// A tropical fish variant packs a pattern in its low 16 bits, a base colour
/// in bits 16 to 23 and a pattern colour in bits 24 to 31.
pub open spec fn spec_packed_variant(pattern: u16, base_color: u8, pattern_color: u8) -> int {
    pattern as int + base_color as int * 65536 + pattern_color as int * 16777216
}

/// A variant the spawn rule can produce.
pub open spec fn is_spawn_variant(v: i32) -> bool {
    ||| exists|i: int| 0 <= i < 22 && v == #[trigger] spec_common_variant(i)
    ||| exists|i: int, b: u8, c: u8|
        0 <= i < 12 && b < 16 && c < 16 && v == #[trigger] spec_packed_variant(
            spec_pattern(i),
            b,
            c,
        )
}

/// The common variant at index `i`.
pub fn common_variant(i: usize) -> (r: i32)
    requires
        i < 22,
    ensures
        r == spec_common_variant(i as int),
{
    match i {
        0 => 117506305,
        1 => 117899265,
        2 => 185008129,
        3 => 117441793,
        4 => 118161664,
        5 => 65536,
        6 => 50726144,
        7 => 67764993,
        8 => 234882305,
        9 => 67110144,
        10 => 117441025,
        11 => 16778497,
        12 => 101253888,
        13 => 50660352,
        14 => 918529,
        15 => 235340288,
        16 => 918273,
        17 => 67108865,
        18 => 917504,
        19 => 459008,
        20 => 67699456,
        _ => 67371009,
    }
}

/// The pattern at index `i`.
pub fn pattern(i: usize) -> (r: u16)
    requires
        i < 12,
    ensures
        r == spec_pattern(i as int),
{
    if i < 6 {
        (256 * i) as u16
    } else {
        (256 * (i - 6) + 1) as u16
    }
}

/// Packs a pattern and two colours into a variant.
pub fn pack_variant(pattern: u16, base_color: u8, pattern_color: u8) -> (r: i32)
    requires
        base_color < 16,
        pattern_color < 16,
    ensures
        r == spec_packed_variant(pattern, base_color, pattern_color),
{
    let p = pattern as i32;
    let b = base_color as i32;
    let c = pattern_color as i32;
    assert((p | (b << 16u32) | (c << 24u32)) == p + b * 65536 + c * 16777216) by (bit_vector)
        requires
            0 <= p < 65536,
            0 <= b < 16,
            0 <= c < 16,
    ;
    p | (b << 16u32) | (c << 24u32)
}

/// A random variant for a new tropical fish: nine times in ten one of the 22
/// common variants, else a random pattern with two random colours.
pub fn random_tropical_fish_variant() -> (r: i32)
    ensures
        is_spawn_variant(r),
{
    if random_range_i32(0, 10) < 9 {
        let i = random_range_i32(0, 22) as usize;
        let v = common_variant(i);
        assert(v == spec_common_variant(i as int));
        v
    } else {
        let i = random_range_i32(0, 12) as usize;
        let p = pattern(i);
        let b = random_range_i32(0, 16) as u8;
        let c = random_range_i32(0, 16) as u8;
        let v = pack_variant(p, b, c);
        assert(v == spec_packed_variant(spec_pattern(i as int), b, c));
        v
    }
}

pub struct TropicalFishEntity {
    pub entity: Entity,
    pub from_bucket: bool,
    pub variant: i32,
    pub air_supply: i32,
}

impl TropicalFishEntity {
    /// A new tropical fish with a random spawn variant.
    pub fn new(entity: Entity) -> (r: TropicalFishEntity)
        ensures
            r.entity == entity,
            !r.from_bucket,
            is_spawn_variant(r.variant),
            r.air_supply == MAX_AIR,
    {
        let variant = random_tropical_fish_variant();
        TropicalFishEntity { entity, from_bucket: false, variant, air_supply: MAX_AIR }
    }

    pub fn is_from_bucket(&self) -> (r: bool)
        ensures
            r == self.from_bucket,
    {
        self.from_bucket
    }

    pub fn set_from_bucket(&mut self, from_bucket: bool)
        ensures
            final(self).from_bucket == from_bucket,
            final(self).variant == old(self).variant,
    {
        self.from_bucket = from_bucket;
    }

    /// A fish caught in a bucket is never despawned.
    pub fn remove_when_far_away(&self) -> (r: bool)
        ensures
            r == !self.from_bucket,
    {
        !self.from_bucket
    }

    /// A fish caught in a bucket is kept when its chunk is saved.
    pub fn requires_custom_persistence(&self) -> (r: bool)
        ensures
            r == self.from_bucket,
    {
        self.from_bucket
    }

    pub fn get_variant(&self) -> (r: i32)
        ensures
            r == self.variant,
    {
        self.variant
    }

    pub fn set_variant(&mut self, variant: i32)
        ensures
            final(self).variant == variant,
            final(self).from_bucket == old(self).from_bucket,
    {
        self.variant = variant;
    }
}

pub struct GlowSquidEntity {
    pub entity: Entity,
    pub dark_ticks_remaining: i32,
    pub air_supply: i32,
    pub ambient_sound_time: i32,
}

/// How long a hurt glow squid stays dark.
pub const HURT_DARK_TICKS: i32 = 100;

impl GlowSquidEntity {
    pub fn new(entity: Entity) -> (r: GlowSquidEntity)
        ensures
            r.entity == entity,
            r.dark_ticks_remaining == 0,
            r.air_supply == MAX_AIR,
            r.ambient_sound_time == -120,
    {
        GlowSquidEntity { entity, dark_ticks_remaining: 0, air_supply: MAX_AIR, ambient_sound_time: -120 }
    }

    /// Taking damage: the squid goes dark for 100 ticks and its ambient sound
    /// waits again; the hurt sound and the ink cloud are for the caller.
    pub fn on_damage(&mut self)
        ensures
            final(self).dark_ticks_remaining == HURT_DARK_TICKS,
            final(self).ambient_sound_time == -120,
            final(self).air_supply == old(self).air_supply,
            final(self).entity == old(self).entity,
    {
        self.ambient_sound_time = -120;
        self.set_dark_ticks(HURT_DARK_TICKS);
    }

    pub fn get_dark_ticks(&self) -> (r: i32)
        ensures
            r == self.dark_ticks_remaining,
    {
        self.dark_ticks_remaining
    }

    pub fn set_dark_ticks(&mut self, ticks: i32)
        ensures
            final(self).dark_ticks_remaining == ticks,
            final(self).air_supply == old(self).air_supply,
            final(self).ambient_sound_time == old(self).ambient_sound_time,
            final(self).entity == old(self).entity,
    {
        self.dark_ticks_remaining = ticks;
    }

    /// One tick in the water: full air, and the dark period runs down.
    /// Returns whether the squid glows this tick (no dark ticks left).
    pub fn water_tick(&mut self) -> (r: bool)
        ensures
            final(self).air_supply == MAX_AIR,
            old(self).dark_ticks_remaining > 0 ==> final(self).dark_ticks_remaining == old(self).dark_ticks_remaining - 1 && !r,
            old(self).dark_ticks_remaining <= 0 ==> final(self).dark_ticks_remaining == old(self).dark_ticks_remaining && r,
    {
        self.air_supply = MAX_AIR;
        let dark = self.dark_ticks_remaining;
        if dark > 0 {
            self.set_dark_ticks(dark - 1);
            false
        } else {
            true
        }
    }
}

/// The integer clocks of a squid (its swimming motion is a matter of
/// fractions and stays with the caller).
#[derive(Clone, Copy, Debug, PartialEq, Eq, Structural)]
pub struct SquidEntity {
    pub air_supply: i32,
    pub ambient_sound_time: i32,
    pub swim_pulse_timer: i32,
}

impl SquidEntity {
    /// A squid with full air, quiet for 120 ticks.
    pub fn new() -> (r: SquidEntity)
        ensures
            r == (SquidEntity { air_supply: MAX_AIR, ambient_sound_time: -120i32, swim_pulse_timer: 0 }),
    {
        SquidEntity { air_supply: MAX_AIR, ambient_sound_time: -120, swim_pulse_timer: 0 }
    }

    /// Passive mobs never despawn when far from players.
    pub fn remove_when_far_away(&self) -> (r: bool)
        ensures
            !r,
    {
        false
    }

    /// Breathing (see `air_tick`); answers whether the squid drowns.
    pub fn breathe(&mut self, in_water: bool) -> (r: bool)
        requires
            old(self).air_supply > i32::MIN,
        ensures
            (final(self).air_supply, r) == spec_air_tick(old(self).air_supply, in_water),
            final(self).ambient_sound_time == old(self).ambient_sound_time,
            final(self).swim_pulse_timer == old(self).swim_pulse_timer,
    {
        let (air, drown) = air_tick(self.air_supply, in_water);
        self.air_supply = air;
        drown
    }

    /// The swim clock moves on; a new swimming direction is picked every 50th
    /// tick, or when the squid has none.
    pub fn swim_pulse(&mut self, has_direction: bool) -> (r: bool)
        requires
            old(self).swim_pulse_timer < i32::MAX,
        ensures
            r == (old(self).swim_pulse_timer % 50 == 0 || !has_direction),
            final(self).swim_pulse_timer == old(self).swim_pulse_timer + 1,
            final(self).air_supply == old(self).air_supply,
            final(self).ambient_sound_time == old(self).ambient_sound_time,
    {
        let timer = self.swim_pulse_timer;
        self.swim_pulse_timer = timer + 1;
        timer % 50 == 0 || !has_direction
    }

    /// The idle sound in water for a `roll` of 0..1000: it plays when the
    /// timer is positive and above the roll, and the timer restarts at -120;
    /// otherwise the timer counts up.
    pub fn ambient_with(&mut self, roll: i32) -> (r: bool)
        requires
            old(self).ambient_sound_time < i32::MAX,
        ensures
            r == (old(self).ambient_sound_time > 0 && roll < old(self).ambient_sound_time),
            final(self).ambient_sound_time == if r {
                -120
            } else {
                old(self).ambient_sound_time + 1
            },
            final(self).air_supply == old(self).air_supply,
            final(self).swim_pulse_timer == old(self).swim_pulse_timer,
    {
        let timer = self.ambient_sound_time;
        self.ambient_sound_time = timer + 1;
        if timer > 0 && roll < timer {
            self.ambient_sound_time = -120;
            true
        } else {
            false
        }
    }

    /// The idle sound (see `ambient_with`), drawing the roll from 0..1000 when
    /// the timer is positive.
    pub fn ambient(&mut self) -> (r: bool)
        requires
            old(self).ambient_sound_time < i32::MAX,
        ensures
            r ==> old(self).ambient_sound_time > 0 && final(self).ambient_sound_time == -120,
            !r ==> final(self).ambient_sound_time == old(self).ambient_sound_time + 1,
    {
        let roll = if self.ambient_sound_time > 0 {
            random_range_i32(0, 1000)
        } else {
            0
        };
        self.ambient_with(roll)
    }

    /// Being hurt silences the squid for 120 ticks (it also squirts ink).
    pub fn on_damage(&mut self)
        ensures
            *final(self) == (SquidEntity { ambient_sound_time: -120i32, ..*old(self) }),
    {
        self.ambient_sound_time = -120;
    }
}

} // verus!
