use vstd::prelude::*;

use crate::geometry::BlockPos;
use crate::rng::random_range_i32;

verus! {

/// A phantom either circles its anchor or swoops down on its target.
#[derive(Clone, Copy, Debug, PartialEq, Eq, Structural)]
pub enum PhantomAttackPhase {
    Circle,
    Swoop,
}

/// The parts of a phantom that its rules read and write (its flight target is
/// a point in space and stays with the caller).
#[derive(Clone, Copy, Debug, PartialEq, Eq, Structural)]
pub struct PhantomEntity {
    pub size: i32,
    pub anchor_point: Option<BlockPos>,
    pub attack_phase: PhantomAttackPhase,
    pub flap_sound_counter: i32,
    pub ambient_sound_timer: i32,
}

/// The experience a phantom gives.
pub const PHANTOM_XP_REWARD: u32 = 5;

/// The anchor above a target standing in block column (`x`, `y`, `z`): 20
/// blocks plus `roll` above it, but at least at height 64.
pub open spec fn spec_anchor_above(x: i32, y: i32, z: i32, roll: i32) -> BlockPos {
    BlockPos { x, y: if y + 20 + roll < 64 {
        64
    } else {
        (y + 20 + roll) as i32
    }, z }
}

/// An anchor lifted by 10 blocks plus `roll`.
pub open spec fn spec_lifted_anchor(a: BlockPos, roll: i32) -> BlockPos {
    BlockPos { x: a.x, y: (a.y + 10 + roll) as i32, z: a.z }
}

impl PhantomEntity {
    /// A phantom spawned in block (`x`, `y`, `z`): size 0, anchored five
    /// blocks above, circling, its idle-sound timer drawn from 80..160.
    pub fn new(x: i32, y: i32, z: i32) -> (r: PhantomEntity)
        requires
            y <= i32::MAX - 5,
        ensures
            r.size == 0,
            r.anchor_point == Some(BlockPos { x, y: (y + 5) as i32, z }),
            r.attack_phase == PhantomAttackPhase::Circle,
            r.flap_sound_counter == 0,
            80 <= r.ambient_sound_timer < 160,
    {
        PhantomEntity {
            size: 0,
            anchor_point: Some(BlockPos { x, y: y + 5, z }),
            attack_phase: PhantomAttackPhase::Circle,
            flap_sound_counter: 0,
            ambient_sound_timer: random_range_i32(80, 160),
        }
    }

    pub fn get_size(&self) -> (r: i32)
        ensures
            r == self.size,
    {
        self.size
    }

    /// Sets the size, kept within 0..=64; answers the attack damage it gives,
    /// 6 plus the size.
    pub fn set_size(&mut self, size: i32) -> (r: i32)
        ensures
            final(self).size == if size < 0 {
                0
            } else if size > 64 {
                64
            } else {
                size
            },
            r == 6 + final(self).size,
            final(self).anchor_point == old(self).anchor_point,
            final(self).attack_phase == old(self).attack_phase,
            final(self).flap_sound_counter == old(self).flap_sound_counter,
            final(self).ambient_sound_timer == old(self).ambient_sound_timer,
    {
        let clamped = if size < 0 {
            0
        } else if size > 64 {
            64
        } else {
            size
        };
        self.size = clamped;
        6 + clamped
    }

    pub fn get_anchor_point(&self) -> (r: Option<BlockPos>)
        ensures
            r == self.anchor_point,
    {
        self.anchor_point
    }

    pub fn set_anchor_point(&mut self, pos: Option<BlockPos>)
        ensures
            *final(self) == (PhantomEntity { anchor_point: pos, ..*old(self) }),
    {
        self.anchor_point = pos;
    }

    pub fn get_attack_phase(&self) -> (r: PhantomAttackPhase)
        ensures
            r == self.attack_phase,
    {
        self.attack_phase
    }

    pub fn set_attack_phase(&mut self, phase: PhantomAttackPhase)
        ensures
            *final(self) == (PhantomEntity { attack_phase: phase, ..*old(self) }),
    {
        self.attack_phase = phase;
    }

    /// The flap sound plays every 25 ticks, offset by the entity id: it plays
    /// when the counter (before it moves on) plus three times the id is a
    /// multiple of 25.
    pub fn tick_flap(&mut self, entity_id: i32) -> (r: bool)
        requires
            -1_000_000 <= entity_id <= 1_000_000,
            i32::MIN + 3_000_000 < old(self).flap_sound_counter < i32::MAX - 3_000_000,
        ensures
            r == ((old(self).flap_sound_counter + 3 * entity_id) % 25 == 0),
            final(self).flap_sound_counter == old(self).flap_sound_counter + 1,
            final(self).size == old(self).size,
            final(self).anchor_point == old(self).anchor_point,
            final(self).attack_phase == old(self).attack_phase,
            final(self).ambient_sound_timer == old(self).ambient_sound_timer,
    {
        let count = self.flap_sound_counter;
        self.flap_sound_counter = count + 1;
        let sum = count + entity_id * 3;
        sum % 25 == 0
    }

    /// The idle sound: the timer runs down, and when it was at zero or below
    /// the sound plays and the timer is drawn anew from 100..200.
    pub fn tick_ambient(&mut self) -> (r: bool)
        requires
            old(self).ambient_sound_timer > i32::MIN,
        ensures
            r == (old(self).ambient_sound_timer <= 0),
            r ==> 100 <= final(self).ambient_sound_timer < 200,
            !r ==> final(self).ambient_sound_timer == old(self).ambient_sound_timer - 1,
            final(self).size == old(self).size,
            final(self).anchor_point == old(self).anchor_point,
            final(self).attack_phase == old(self).attack_phase,
            final(self).flap_sound_counter == old(self).flap_sound_counter,
    {
        let time = self.ambient_sound_timer;
        self.ambient_sound_timer = time - 1;
        if time <= 0 {
            self.ambient_sound_timer = random_range_i32(100, 200);
            true
        } else {
            false
        }
    }

    /// The size to load: `size`, else `Size`, else 0.
    pub fn saved_size(size: Option<i32>, legacy_size: Option<i32>) -> (r: i32)
        ensures
            r == spec_saved_size(size, legacy_size),
    {
        match size {
            Some(s) => s,
            None => match legacy_size {
                Some(s) => s,
                None => 0,
            },
        }
    }

    /// The anchor to load: a three-number `anchor_pos` array wins when it is
    /// present (an array of another length loads nothing); without the array,
    /// the three `AX`, `AY`, `AZ` numbers when all are there.
    pub fn saved_anchor(array: Option<&Vec<i32>>, ax: Option<i32>, ay: Option<i32>, az: Option<i32>) -> (r:
        Option<BlockPos>)
        ensures
            r == spec_saved_anchor(
                match array {
                    Some(a) => Some(a@),
                    None => None,
                },
                ax,
                ay,
                az,
            ),
    {
        match array {
            Some(a) => if a.len() == 3 {
                Some(BlockPos { x: a[0], y: a[1], z: a[2] })
            } else {
                None
            },
            None => match (ax, ay, az) {
                (Some(x), Some(y), Some(z)) => Some(BlockPos { x, y, z }),
                _ => None,
            },
        }
    }
}

/// The size loaded from the saved `size`, else `Size`, else 0.
pub open spec fn spec_saved_size(size: Option<i32>, legacy_size: Option<i32>) -> i32 {
    match size {
        Some(s) => s,
        None => match legacy_size {
            Some(s) => s,
            None => 0,
        },
    }
}

/// The anchor loaded from a saved `anchor_pos` array (which wins when present)
/// or from the saved `AX`, `AY`, `AZ` numbers.
pub open spec fn spec_saved_anchor(array: Option<Seq<i32>>, ax: Option<i32>, ay: Option<i32>, az: Option<i32>) -> Option<BlockPos> {
    match array {
        Some(a) => if a.len() == 3 {
            Some(BlockPos { x: a[0], y: a[1], z: a[2] })
        } else {
            None
        },
        None => match (ax, ay, az) {
            (Some(x), Some(y), Some(z)) => Some(BlockPos { x, y, z }),
            _ => None,
        },
    }
}

/// A saved phantom loads back as it was: its size is written under both
/// names and read back from either, and its anchor, written both as an array
/// and as three numbers, is read back from the array or, failing it, from the
/// numbers.
pub proof fn law_phantom_save_round_trip(size: i32, anchor: BlockPos)
    ensures
        spec_saved_size(Some(size), Some(size)) == size,
        spec_saved_size(None, Some(size)) == size,
        spec_saved_anchor(Some(seq![anchor.x, anchor.y, anchor.z]), Some(anchor.x), Some(anchor.y), Some(anchor.z)) == Some(anchor),
        spec_saved_anchor(None, Some(anchor.x), Some(anchor.y), Some(anchor.z)) == Some(anchor),
{
}

/// The goal that switches a phantom between circling and swooping.
#[derive(Clone, Copy, Debug, PartialEq, Eq, Structural)]
pub struct PhantomAttackStrategyGoal {
    pub next_sweep_tick: i32,
}

impl PhantomAttackStrategyGoal {
    pub fn new() -> (r: PhantomAttackStrategyGoal)
        ensures
            r.next_sweep_tick == 0,
    {
        PhantomAttackStrategyGoal { next_sweep_tick: 0 }
    }

    /// The anchor above a target in block column (`x`, `y`, `z`) for the
    /// given roll of 0..20.
    pub fn anchor_above(x: i32, y: i32, z: i32, roll: i32) -> (r: BlockPos)
        requires
            0 <= roll < 20,
            y <= i32::MAX - 40,
        ensures
            r == spec_anchor_above(x, y, z, roll),
    {
        let height = y + 20 + roll;
        BlockPos { x, y: if height < 64 {
            64
        } else {
            height
        }, z }
    }

    /// Starting: the first swoop comes in 10 ticks, the phantom circles, and
    /// its anchor moves above the target (when it has one) by a roll of 0..20.
    pub fn start(&mut self, phantom: &mut PhantomEntity, target: Option<(i32, i32, i32)>)
        requires
            target matches Some(t) ==> t.1 <= i32::MAX - 40,
        ensures
            final(self).next_sweep_tick == 10,
            final(phantom).attack_phase == PhantomAttackPhase::Circle,
            target is None ==> final(phantom).anchor_point == old(phantom).anchor_point,
            target matches Some(t) ==> exists|roll: i32|
                0 <= roll < 20 && final(phantom).anchor_point == Some(
                    #[trigger] spec_anchor_above(t.0, t.1, t.2, roll),
                ),
            final(phantom).size == old(phantom).size,
            final(phantom).flap_sound_counter == old(phantom).flap_sound_counter,
            final(phantom).ambient_sound_timer == old(phantom).ambient_sound_timer,
    {
        self.next_sweep_tick = 10;
        phantom.attack_phase = PhantomAttackPhase::Circle;
        if let Some((x, y, z)) = target {
            let roll = random_range_i32(0, 20);
            phantom.anchor_point = Some(Self::anchor_above(x, y, z, roll));
        }
    }

    /// The goal runs while the target lives.
    pub fn can_start(target_alive: Option<bool>) -> (r: bool)
        ensures
            r == (target_alive == Some(true)),
    {
        match target_alive {
            Some(a) => a,
            None => false,
        }
    }

    /// Stopping lifts the anchor by 10 plus a roll of 0..20.
    pub fn stop(phantom: &mut PhantomEntity)
        requires
            old(phantom).anchor_point matches Some(a) ==> a.y <= i32::MAX - 30,
        ensures
            old(phantom).anchor_point is None ==> *final(phantom) == *old(phantom),
            old(phantom).anchor_point matches Some(a) ==> exists|roll: i32|
                0 <= roll < 20 && final(phantom).anchor_point == Some(
                    #[trigger] spec_lifted_anchor(a, roll),
                ),
            final(phantom).size == old(phantom).size,
            final(phantom).attack_phase == old(phantom).attack_phase,
            final(phantom).flap_sound_counter == old(phantom).flap_sound_counter,
            final(phantom).ambient_sound_timer == old(phantom).ambient_sound_timer,
    {
        if let Some(a) = phantom.anchor_point {
            let roll = random_range_i32(0, 20);
            phantom.anchor_point = Some(BlockPos { x: a.x, y: a.y + 10 + roll, z: a.z });
            assert(phantom.anchor_point == Some(spec_lifted_anchor(a, roll)));
        }
    }

    /// A tick with the given rolls (`anchor_roll` of 0..20, `delay_roll` of
    /// 0..4): while circling, the countdown to the next swoop runs; at zero the
    /// phantom swoops, its anchor moves above the target, and the next swoop is
    /// (8 + `delay_roll`) seconds away.  Answers whether the swoop began.
    pub fn tick_with(
        &mut self,
        phantom: &mut PhantomEntity,
        target: Option<(i32, i32, i32)>,
        anchor_roll: i32,
        delay_roll: i32,
    ) -> (r: bool)
        requires
            0 <= anchor_roll < 20,
            0 <= delay_roll < 4,
            old(self).next_sweep_tick > i32::MIN,
            target matches Some(t) ==> t.1 <= i32::MAX - 40,
        ensures
            r == (old(phantom).attack_phase == PhantomAttackPhase::Circle && old(self).next_sweep_tick - 1 <= 0),
            old(phantom).attack_phase != PhantomAttackPhase::Circle ==> *final(self) == *old(self)
                && *final(phantom) == *old(phantom),
            old(phantom).attack_phase == PhantomAttackPhase::Circle && !r ==> final(self).next_sweep_tick == old(self).next_sweep_tick - 1 && *final(phantom) == *old(phantom),
            r ==> final(self).next_sweep_tick == (8 + delay_roll) * 20 && *final(phantom) == (
            PhantomEntity {
                attack_phase: PhantomAttackPhase::Swoop,
                anchor_point: match target {
                    Some(t) => Some(spec_anchor_above(t.0, t.1, t.2, anchor_roll)),
                    None => old(phantom).anchor_point,
                },
                ..*old(phantom)
            }),
    {
        if phantom.attack_phase == PhantomAttackPhase::Circle {
            self.next_sweep_tick = self.next_sweep_tick - 1;
            if self.next_sweep_tick <= 0 {
                phantom.attack_phase = PhantomAttackPhase::Swoop;
                if let Some((x, y, z)) = target {
                    phantom.anchor_point = Some(Self::anchor_above(x, y, z, anchor_roll));
                }
                self.next_sweep_tick = (8 + delay_roll) * 20;
                return true;
            }
        }
        false
    }

    /// A tick, drawing its rolls (see `tick_with`).
    pub fn tick(&mut self, phantom: &mut PhantomEntity, target: Option<(i32, i32, i32)>) -> (r: bool)
        requires
            old(self).next_sweep_tick > i32::MIN,
            target matches Some(t) ==> t.1 <= i32::MAX - 40,
        ensures
            r == (old(phantom).attack_phase == PhantomAttackPhase::Circle && old(self).next_sweep_tick - 1 <= 0),
            r ==> 160 <= final(self).next_sweep_tick <= 220 && final(phantom).attack_phase
                == PhantomAttackPhase::Swoop,
    {
        let anchor_roll = random_range_i32(0, 20);
        let delay_roll = random_range_i32(0, 4);
        self.tick_with(phantom, target, anchor_roll, delay_roll)
    }
}

/// The goal of circling round the anchor; the circle itself is drawn in
/// fractions of blocks by the caller.
pub struct PhantomCircleAroundAnchorGoal;

impl PhantomCircleAroundAnchorGoal {
    /// A phantom circles while it has no target or its phase is circling.
    pub fn can_start(has_target: bool, phase: PhantomAttackPhase) -> (r: bool)
        ensures
            r == (!has_target || phase == PhantomAttackPhase::Circle),
    {
        !has_target || phase == PhantomAttackPhase::Circle
    }

    pub fn should_continue(has_target: bool, phase: PhantomAttackPhase) -> (r: bool)
        ensures
            r == (!has_target || phase == PhantomAttackPhase::Circle),
    {
        Self::can_start(has_target, phase)
    }
}

/// What a sweep tick does.
#[derive(Clone, Copy, Debug, PartialEq, Eq, Structural)]
pub enum SweepOutcome {
    /// A cat or ocelot was found: the phantom hisses away, circles again and
    /// drops its target.
    ScaredOff,
    /// The phantom reached its target: it bites and circles again.
    Bite,
    /// It hit a wall or was hurt: it circles again.
    BreakOff,
    /// It dives on.
    Dive,
}

/// The goal of a phantom's dive on its target.
#[derive(Clone, Copy, Debug, PartialEq, Eq, Structural)]
pub struct PhantomSweepAttackGoal {
    pub cat_search_tick: i32,
    pub is_scared_of_cat: bool,
}

impl PhantomSweepAttackGoal {
    pub fn new() -> (r: PhantomSweepAttackGoal)
        ensures
            r.cat_search_tick == 0,
            !r.is_scared_of_cat,
    {
        PhantomSweepAttackGoal { cat_search_tick: 0, is_scared_of_cat: false }
    }

    /// The dive starts against a living target while swooping.
    pub fn can_start(target_alive: Option<bool>, phase: PhantomAttackPhase) -> (r: bool)
        ensures
            r == (target_alive == Some(true) && phase == PhantomAttackPhase::Swoop),
    {
        match target_alive {
            Some(a) => a && phase == PhantomAttackPhase::Swoop,
            None => false,
        }
    }

    pub fn start(&mut self)
        ensures
            final(self).cat_search_tick == 0,
            !final(self).is_scared_of_cat,
    {
        self.is_scared_of_cat = false;
        self.cat_search_tick = 0;
    }

    /// The dive goes on unless a cat scared the phantom, the target is gone or
    /// dead, or the phase changed.
    pub fn should_continue(&self, target_alive: Option<bool>, phase: PhantomAttackPhase) -> (r: bool)
        ensures
            r == (!self.is_scared_of_cat && target_alive == Some(true) && phase
                == PhantomAttackPhase::Swoop),
    {
        if self.is_scared_of_cat {
            return false;
        }
        match target_alive {
            Some(a) => a && phase == PhantomAttackPhase::Swoop,
            None => false,
        }
    }

    /// Stopping: the phantom circles again; answers whether it must drop its
    /// target (it was scared off).
    pub fn stop(&self, phantom: &mut PhantomEntity) -> (r: bool)
        ensures
            r == self.is_scared_of_cat,
            *final(phantom) == (PhantomEntity {
                attack_phase: PhantomAttackPhase::Circle,
                ..*old(phantom)
            }),
    {
        phantom.attack_phase = PhantomAttackPhase::Circle;
        self.is_scared_of_cat
    }

    /// Whether this tick searches for cats: the search counter runs down and
    /// restarts at 20 when it reaches zero.
    pub fn tick_cat_search(&mut self) -> (r: bool)
        requires
            old(self).cat_search_tick > i32::MIN,
        ensures
            r == (old(self).cat_search_tick - 1 <= 0),
            final(self).cat_search_tick == if r {
                20
            } else {
                old(self).cat_search_tick - 1
            },
            final(self).is_scared_of_cat == old(self).is_scared_of_cat,
    {
        self.cat_search_tick = self.cat_search_tick - 1;
        if self.cat_search_tick <= 0 {
            self.cat_search_tick = 20;
            true
        } else {
            false
        }
    }

    /// The rest of a dive tick: a cat found by this tick's search scares the
    /// phantom off; else reaching the target bites it; else hitting a wall or
    /// being hurt breaks the dive off.
    pub fn dive_outcome(&mut self, phantom: &mut PhantomEntity, cat_found: bool, touching_target: bool, collided_or_hurt: bool) -> (r: SweepOutcome)
        ensures
            r == if cat_found {
                SweepOutcome::ScaredOff
            } else if touching_target {
                SweepOutcome::Bite
            } else if collided_or_hurt {
                SweepOutcome::BreakOff
            } else {
                SweepOutcome::Dive
            },
            final(self).is_scared_of_cat == (old(self).is_scared_of_cat || cat_found),
            final(self).cat_search_tick == old(self).cat_search_tick,
            *final(phantom) == if r == SweepOutcome::Dive {
                *old(phantom)
            } else {
                PhantomEntity { attack_phase: PhantomAttackPhase::Circle, ..*old(phantom) }
            },
    {
        if cat_found {
            self.is_scared_of_cat = true;
            phantom.attack_phase = PhantomAttackPhase::Circle;
            return SweepOutcome::ScaredOff;
        }
        if touching_target {
            phantom.attack_phase = PhantomAttackPhase::Circle;
            SweepOutcome::Bite
        } else if collided_or_hurt {
            phantom.attack_phase = PhantomAttackPhase::Circle;
            SweepOutcome::BreakOff
        } else {
            SweepOutcome::Dive
        }
    }
}

/// The goal by which a phantom picks the highest player near it.
#[derive(Clone, Copy, Debug, PartialEq, Eq, Structural)]
pub struct PhantomAttackPlayerTargetGoal {
    pub next_scan_tick: i32,
}

impl PhantomAttackPlayerTargetGoal {
    pub fn new() -> (r: PhantomAttackPlayerTargetGoal)
        ensures
            r.next_scan_tick == 20,
    {
        PhantomAttackPlayerTargetGoal { next_scan_tick: 20 }
    }

    /// Whether this tick scans for players: the scan counter runs down, and
    /// when it reaches zero it restarts at 40 and a phantom without a target
    /// scans.
    pub fn scan_due(&mut self, has_target: bool) -> (r: bool)
        requires
            old(self).next_scan_tick > i32::MIN,
        ensures
            old(self).next_scan_tick - 1 > 0 ==> !r && final(self).next_scan_tick == old(self).next_scan_tick - 1,
            old(self).next_scan_tick - 1 <= 0 ==> r == !has_target && final(self).next_scan_tick
                == 40,
    {
        self.next_scan_tick = self.next_scan_tick - 1;
        if self.next_scan_tick > 0 {
            return false;
        }
        self.next_scan_tick = 40;
        !has_target
    }

    /// The goal goes on while the target lives.
    pub fn should_continue(target_alive: Option<bool>) -> (r: bool)
        ensures
            r == (target_alive == Some(true)),
    {
        match target_alive {
            Some(a) => a,
            None => false,
        }
    }
}

} // verus!
