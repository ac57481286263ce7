use vstd::prelude::*;

use crate::entity::Entity;
use crate::rng::random_range_i32;

verus! {

pub const MAX_ANGER: i32 = 150;

/// From this anger on the warden is angry.
pub const ANGRY_ANGER: i32 = 80;

/// From this anger on the warden listens angrily.
pub const AGITATED_ANGER: i32 = 40;

/// Ticks between two sonic booms.
pub const SONIC_BOOM_COOLDOWN: i32 = 40;

/// Ticks the sonic boom charges before it goes off.
pub const SONIC_CHARGE_TICKS: i32 = 34;

/// Ticks between two pulses of the darkness aura.
pub const DARKNESS_INTERVAL: i32 = 120;

/// Ticks a target must stay out of melee reach before a long boom is allowed.
pub const OUT_OF_REACH_TICKS: i32 = 200;

/// The sound the warden makes when its anger rises.
#[derive(Clone, Copy, Debug, PartialEq, Eq, Structural)]
pub enum AngerSound {
    Roar,
    ListeningAngry,
    Listening,
}

pub struct WardenEntity {
    pub entity: Entity,
    pub anger_level: i32,
    pub sonic_boom_cooldown: i32,
    pub sonic_charge_ticks: i32,
    pub darkness_timer: i32,
    pub heartbeat_timer: i32,
    pub sniff_timer: i32,
    pub out_of_melee_reach_ticks: i32,
}

pub open spec fn clamp_anger(v: int) -> int {
    if v < 0 {
        0
    } else if v > MAX_ANGER {
        MAX_ANGER as int
    } else {
        v
    }
}

pub open spec fn spec_heartbeat_delay(anger: int) -> int {
    40 - (if anger < 80 {
        anger
    } else {
        80
    }) * 3 / 8
}

pub open spec fn spec_inc(v: i32) -> i32 {
    if v < i32::MAX {
        (v + 1) as i32
    } else {
        i32::MIN
    }
}

impl WardenEntity {
    /// The anger level always lies in 0..=150.
    pub open spec fn wf(&self) -> bool {
        0 <= self.anger_level <= MAX_ANGER
    }

    pub fn new(entity: Entity) -> (r: WardenEntity)
        ensures
            r.wf(),
            r.entity == entity,
            r.anger_level == 0,
            r.sonic_boom_cooldown == SONIC_BOOM_COOLDOWN,
            r.sonic_charge_ticks == 0,
            r.darkness_timer == DARKNESS_INTERVAL,
            r.heartbeat_timer == 40,
            100 <= r.sniff_timer < 200,
            r.out_of_melee_reach_ticks == 0,
    {
        WardenEntity {
            entity,
            anger_level: 0,
            sonic_boom_cooldown: SONIC_BOOM_COOLDOWN,
            sonic_charge_ticks: 0,
            darkness_timer: DARKNESS_INTERVAL,
            heartbeat_timer: 40,
            sniff_timer: random_range_i32(100, 200),
            out_of_melee_reach_ticks: 0,
        }
    }

    pub fn get_anger_level(&self) -> (r: i32)
        ensures
            r == self.anger_level,
    {
        self.anger_level
    }

    /// Sets the anger, clamped to 0..=150.
    pub fn set_anger_level(&mut self, anger: i32)
        ensures
            final(self).wf(),
            final(self).anger_level == clamp_anger(anger as int),
            final(self).entity == old(self).entity,
            final(self).sonic_boom_cooldown == old(self).sonic_boom_cooldown,
            final(self).sonic_charge_ticks == old(self).sonic_charge_ticks,
            final(self).darkness_timer == old(self).darkness_timer,
            final(self).heartbeat_timer == old(self).heartbeat_timer,
            final(self).sniff_timer == old(self).sniff_timer,
            final(self).out_of_melee_reach_ticks == old(self).out_of_melee_reach_ticks,
    {
        let clamped = if anger < 0 {
            0
        } else if anger > MAX_ANGER {
            MAX_ANGER
        } else {
            anger
        };
        self.anger_level = clamped;
    }

    /// Raises the anger by `amount` (clamped) and tells which sound goes with
    /// it: a roar when the warden just became angry.
    pub fn increase_anger_at(&mut self, amount: i32) -> (r: AngerSound)
        requires
            old(self).wf(),
            i32::MIN <= old(self).anger_level + amount <= i32::MAX,
        ensures
            final(self).wf(),
            final(self).anger_level == clamp_anger(old(self).anger_level + amount),
            r == if old(self).anger_level < ANGRY_ANGER && final(self).anger_level >= ANGRY_ANGER {
                AngerSound::Roar
            } else if final(self).anger_level >= AGITATED_ANGER {
                AngerSound::ListeningAngry
            } else {
                AngerSound::Listening
            },
            final(self).sonic_boom_cooldown == old(self).sonic_boom_cooldown,
    {
        let old_anger = self.get_anger_level();
        let new_anger = old_anger + amount;
        self.set_anger_level(new_anger);
        let new_anger = self.anger_level;
        if old_anger < ANGRY_ANGER && new_anger >= ANGRY_ANGER {
            AngerSound::Roar
        } else if new_anger >= AGITATED_ANGER {
            AngerSound::ListeningAngry
        } else {
            AngerSound::Listening
        }
    }

    /// Lowers the anger by `amount`, not below 0.
    pub fn decrease_anger(&mut self, amount: i32)
        requires
            old(self).wf(),
            i32::MIN <= old(self).anger_level - amount <= i32::MAX,
        ensures
            final(self).wf(),
            final(self).anger_level == clamp_anger(old(self).anger_level - amount),
            final(self).heartbeat_timer == old(self).heartbeat_timer,
            final(self).darkness_timer == old(self).darkness_timer,
            final(self).sniff_timer == old(self).sniff_timer,
            final(self).out_of_melee_reach_ticks == old(self).out_of_melee_reach_ticks,
            final(self).sonic_boom_cooldown == old(self).sonic_boom_cooldown,
            final(self).sonic_charge_ticks == old(self).sonic_charge_ticks,
    {
        let old_anger = self.get_anger_level();
        let new_anger = old_anger - amount;
        let new_anger = if new_anger < 0 {
            0
        } else {
            new_anger
        };
        self.set_anger_level(new_anger);
    }

    /// Ticks between heartbeats: 40 when calm, down to 10 at anger 80 and
    /// above, that is `40 - min(anger, 80) * 30 / 80` rounded towards zero.
    pub fn get_heartbeat_delay(&self) -> (r: i32)
        requires
            self.wf(),
        ensures
            r == spec_heartbeat_delay(self.anger_level as int),
            10 <= r <= 40,
    {
        let anger = if self.anger_level < 80 {
            self.anger_level
        } else {
            80
        };
        40 - anger * 3 / 8
    }

    /// A successful melee hit resets the sonic boom and the reach counter.
    pub fn on_attack(&mut self)
        ensures
            final(self).sonic_boom_cooldown == SONIC_BOOM_COOLDOWN,
            final(self).out_of_melee_reach_ticks == 0,
            final(self).anger_level == old(self).anger_level,
    {
        self.sonic_boom_cooldown = SONIC_BOOM_COOLDOWN;
        self.out_of_melee_reach_ticks = 0;
    }

    /// Being hurt makes the warden much angrier.
    pub fn on_damage(&mut self) -> (r: AngerSound)
        requires
            old(self).wf(),
        ensures
            final(self).wf(),
            final(self).anger_level == clamp_anger(old(self).anger_level + 55),
    {
        self.increase_anger_at(55)
    }
}

/// What the heartbeat goal does in one tick.
#[derive(Clone, Copy, Debug, PartialEq, Eq, Structural)]
pub struct HeartbeatActions {
    pub heartbeat_sound: bool,
    pub darkness_pulse: bool,
    pub sniff_sound: bool,
}

/// Heartbeat, darkness aura, sniffing and the slow fading of anger.
pub struct WardenHeartbeatAndDarknessGoal;

impl WardenHeartbeatAndDarknessGoal {
    pub fn new() -> (r: WardenHeartbeatAndDarknessGoal) {
        WardenHeartbeatAndDarknessGoal
    }

    pub fn can_start(&self) -> (r: bool)
        ensures
            r,
    {
        true
    }

    pub fn should_continue(&self) -> (r: bool)
        ensures
            r,
    {
        true
    }

    /// One tick.  `age` is the warden's age in ticks; `target_far` is `None`
    /// without a target, else whether the target is farther than four blocks.
    pub fn tick(&self, warden: &mut WardenEntity, age: i32, target_far: Option<bool>) -> (r:
        HeartbeatActions)
        requires
            old(warden).wf(),
            old(warden).heartbeat_timer > i32::MIN,
            old(warden).darkness_timer > i32::MIN,
            old(warden).sniff_timer > i32::MIN,
        ensures
            final(warden).wf(),
            r.heartbeat_sound == (old(warden).heartbeat_timer - 1 <= 0),
            final(warden).heartbeat_timer == if r.heartbeat_sound {
                spec_heartbeat_delay(old(warden).anger_level as int)
            } else {
                old(warden).heartbeat_timer - 1
            },
            r.darkness_pulse == (old(warden).darkness_timer - 1 <= 0),
            final(warden).darkness_timer == if r.darkness_pulse {
                DARKNESS_INTERVAL as int
            } else {
                old(warden).darkness_timer - 1
            },
            r.sniff_sound == (old(warden).anger_level < AGITATED_ANGER && old(warden).sniff_timer
                - 1 <= 0),
            old(warden).anger_level >= AGITATED_ANGER ==> final(warden).sniff_timer == old(warden).sniff_timer,
            old(warden).anger_level < AGITATED_ANGER && !r.sniff_sound ==> final(warden).sniff_timer
                == old(warden).sniff_timer - 1,
            r.sniff_sound ==> 120 <= final(warden).sniff_timer < 240,
            final(warden).anger_level == if target_far is None && age % 20 == 0 {
                clamp_anger(old(warden).anger_level - 1)
            } else {
                old(warden).anger_level as int
            },
            final(warden).out_of_melee_reach_ticks == match target_far {
                None => old(warden).out_of_melee_reach_ticks,
                Some(true) => spec_inc(old(warden).out_of_melee_reach_ticks),
                Some(false) => 0,
            },
    {
        let hb_remaining = warden.heartbeat_timer - 1;
        warden.heartbeat_timer = hb_remaining;
        let heartbeat_sound = hb_remaining <= 0;
        if heartbeat_sound {
            warden.heartbeat_timer = warden.get_heartbeat_delay();
        }
        let dark_remaining = warden.darkness_timer - 1;
        warden.darkness_timer = dark_remaining;
        let darkness_pulse = dark_remaining <= 0;
        if darkness_pulse {
            warden.darkness_timer = DARKNESS_INTERVAL;
        }
        let mut sniff_sound = false;
        if warden.get_anger_level() < AGITATED_ANGER {
            let sniff_rem = warden.sniff_timer - 1;
            warden.sniff_timer = sniff_rem;
            if sniff_rem <= 0 {
                warden.sniff_timer = random_range_i32(120, 240);
                sniff_sound = true;
            }
        }
        if target_far.is_none() && age % 20 == 0 {
            warden.decrease_anger(1);
        }
        match target_far {
            Some(true) => {
                warden.out_of_melee_reach_ticks = warden.out_of_melee_reach_ticks.wrapping_add(1);
            },
            Some(false) => {
                warden.out_of_melee_reach_ticks = 0;
            },
            None => {},
        }
        HeartbeatActions { heartbeat_sound, darkness_pulse, sniff_sound }
    }
}

/// What one tick of the sonic boom does.
#[derive(Clone, Copy, Debug, PartialEq, Eq, Structural)]
pub enum SonicBoomTick {
    /// Still charging.
    Charging,
    /// The charge ran out without a target.
    Fizzled,
    /// The boom goes off at the target.
    Fire,
}

/// The warden's ranged sonic boom.
pub struct WardenSonicBoomGoal;

impl WardenSonicBoomGoal {
    pub fn new() -> (r: WardenSonicBoomGoal) {
        WardenSonicBoomGoal
    }

    /// Whether the boom starts.  A charge in progress always continues; else
    /// the cooldown runs down first; then a live target is needed that is in
    /// boom range (`in_range`), or that has been out of melee reach for more
    /// than 200 ticks and lies within 20 blocks horizontally (`within_twenty`).
    pub fn can_start(
        &self,
        warden: &mut WardenEntity,
        has_live_target: bool,
        in_range: bool,
        within_twenty: bool,
    ) -> (r: bool)
        ensures
            final(warden).anger_level == old(warden).anger_level,
            final(warden).sonic_charge_ticks == old(warden).sonic_charge_ticks,
            r == if old(warden).sonic_charge_ticks > 0 {
                true
            } else if old(warden).sonic_boom_cooldown > 0 {
                false
            } else {
                has_live_target && (in_range || (old(warden).out_of_melee_reach_ticks
                    > OUT_OF_REACH_TICKS && within_twenty))
            },
            final(warden).sonic_boom_cooldown == if old(warden).sonic_charge_ticks <= 0 && old(warden).sonic_boom_cooldown > 0 {
                old(warden).sonic_boom_cooldown - 1
            } else {
                old(warden).sonic_boom_cooldown as int
            },
    {
        if warden.sonic_charge_ticks > 0 {
            return true;
        }
        if warden.sonic_boom_cooldown > 0 {
            warden.sonic_boom_cooldown = warden.sonic_boom_cooldown - 1;
            return false;
        }
        if !has_live_target {
            return false;
        }
        let out_of_reach = warden.out_of_melee_reach_ticks > OUT_OF_REACH_TICKS;
        in_range || (out_of_reach && within_twenty)
    }

    /// Starts the 34-tick charge.
    pub fn start(&self, warden: &mut WardenEntity)
        ensures
            final(warden).sonic_charge_ticks == SONIC_CHARGE_TICKS,
            final(warden).anger_level == old(warden).anger_level,
    {
        warden.sonic_charge_ticks = SONIC_CHARGE_TICKS;
    }

    pub fn should_continue(&self, warden: &WardenEntity) -> (r: bool)
        ensures
            r == (warden.sonic_charge_ticks > 0),
    {
        warden.sonic_charge_ticks > 0
    }

    /// One tick of charging; when the charge runs out the boom goes off if
    /// there is a target, and the cooldown restarts either way.
    pub fn tick(&self, warden: &mut WardenEntity, has_target: bool) -> (r: SonicBoomTick)
        requires
            old(warden).sonic_charge_ticks > i32::MIN,
        ensures
            final(warden).sonic_charge_ticks == old(warden).sonic_charge_ticks - 1,
            final(warden).anger_level == old(warden).anger_level,
            old(warden).sonic_charge_ticks - 1 > 0 ==> r == SonicBoomTick::Charging && final(warden).sonic_boom_cooldown == old(warden).sonic_boom_cooldown,
            old(warden).sonic_charge_ticks - 1 <= 0 ==> final(warden).sonic_boom_cooldown
                == SONIC_BOOM_COOLDOWN && r == if has_target {
                SonicBoomTick::Fire
            } else {
                SonicBoomTick::Fizzled
            },
            old(warden).sonic_charge_ticks - 1 <= 0 && has_target ==> final(warden).out_of_melee_reach_ticks == 0,
    {
        let ticks = warden.sonic_charge_ticks - 1;
        warden.sonic_charge_ticks = ticks;
        if ticks <= 0 {
            warden.sonic_boom_cooldown = SONIC_BOOM_COOLDOWN;
            if !has_target {
                return SonicBoomTick::Fizzled;
            }
            warden.out_of_melee_reach_ticks = 0;
            return SonicBoomTick::Fire;
        }
        SonicBoomTick::Charging
    }
}

} // verus!
