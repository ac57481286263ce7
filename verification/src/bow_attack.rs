use vstd::prelude::*;

use crate::entity::{Difficulty, EntityKind};

verus! {

/// Ticks the bow has to be drawn before the arrow is released.
pub const DRAW_TIME: i32 = 20;

/// Where the target stands relative to the attack range `r` (by squared
/// distance `d`): `Close` for `d < r/4`, `Middle` for `r/4 <= d <= 3r/4`,
/// `Edge` for `3r/4 < d <= r`, `Outside` for `d > r`.
#[derive(Clone, Copy, Debug, PartialEq, Eq, Structural)]
pub enum RangeBand {
    Close,
    Middle,
    Edge,
    Outside,
}

/// What the archer perceives this tick.
#[derive(Clone, Copy, Debug, PartialEq, Eq, Structural)]
pub struct BowSenses {
    pub line_of_sight: bool,
    pub band: RangeBand,
    /// The 30% chance of turning the other way round while strafing.
    pub flip_clockwise: bool,
    /// The 30% chance of switching between advancing and backing off.
    pub flip_backwards: bool,
    pub difficulty: Difficulty,
}

/// How the archer moves this tick.
#[derive(Clone, Copy, Debug, PartialEq, Eq, Structural)]
pub enum BowMovement {
    /// Walks towards the target.
    Chase,
    /// Stops and circles: backwards or forwards, clockwise or not.
    Strafe { backwards: bool, clockwise: bool },
}

/// What the archer does this tick.  It always looks at its target.
#[derive(Clone, Copy, Debug, PartialEq, Eq, Structural)]
pub struct BowActions {
    pub movement: BowMovement,
    /// Lowers the bow without shooting.
    pub release: bool,
    /// Lowers the bow and shoots an arrow.
    pub shoot: bool,
    /// Raises the bow.
    pub draw: bool,
}

/// The timers of the ranged bow attack of skeletons.
#[derive(Clone, Copy, Debug, PartialEq, Eq, Structural)]
pub struct BowAttackGoal {
    pub attack_interval: i32,
    pub cooldown: i32,
    pub draw_ticks: i32,
    pub drawing: bool,
    pub see_time: i32,
    pub strafing_clockwise: bool,
    pub strafing_backwards: bool,
    pub strafing_time: i32,
}

/// The arrow a shooter fires: bogged shoot poison, strays slowness, others
/// plain arrows.
#[derive(Clone, Copy, Debug, PartialEq, Eq, Structural)]
pub enum ArrowKind {
    Plain,
    Poison,
    Slowness,
}

pub open spec fn in_range(band: RangeBand) -> bool {
    band != RangeBand::Outside
}

/// The sight counter after a tick: it restarts when sight changes, then counts
/// up with sight and down without.
pub open spec fn spec_next_see_time(see_time: int, sight: bool) -> int {
    let base = if sight != (see_time > 0) {
        0
    } else {
        see_time
    };
    if sight {
        base + 1
    } else {
        base - 1
    }
}

/// One tick of the goal with a target (see the body of `tick`).
pub open spec fn spec_bow_tick(g: BowAttackGoal, s: BowSenses) -> (BowAttackGoal, BowActions) {
    let see = spec_next_see_time(g.see_time as int, s.line_of_sight);
    let holding = in_range(s.band) && see >= 20;
    let st0 = if holding {
        g.strafing_time + 1
    } else {
        -1
    };
    let flip = st0 >= 20;
    let cw = if flip && s.flip_clockwise {
        !g.strafing_clockwise
    } else {
        g.strafing_clockwise
    };
    let bw0 = if flip && s.flip_backwards {
        !g.strafing_backwards
    } else {
        g.strafing_backwards
    };
    let st = if flip {
        0
    } else {
        st0
    };
    let strafing = st > -1;
    let bw = if !strafing {
        bw0
    } else if s.band == RangeBand::Edge || s.band == RangeBand::Outside {
        false
    } else if s.band == RangeBand::Close {
        true
    } else {
        bw0
    };
    let movement = if strafing {
        BowMovement::Strafe { backwards: bw, clockwise: cw }
    } else {
        BowMovement::Chase
    };
    let g1 = BowAttackGoal {
        see_time: see as i32,
        strafing_time: st as i32,
        strafing_clockwise: cw,
        strafing_backwards: bw,
        ..g
    };
    if g.drawing {
        if !s.line_of_sight && see < -60 {
            (
                BowAttackGoal { drawing: false, draw_ticks: 0, ..g1 },
                BowActions { movement, release: true, shoot: false, draw: false },
            )
        } else if s.line_of_sight && g.draw_ticks + 1 >= DRAW_TIME {
            (
                BowAttackGoal {
                    drawing: false,
                    draw_ticks: 0,
                    cooldown: if s.difficulty == Difficulty::Hard {
                        20
                    } else {
                        g.attack_interval
                    },
                    ..g1
                },
                BowActions { movement, release: false, shoot: true, draw: false },
            )
        } else if s.line_of_sight {
            (
                BowAttackGoal { draw_ticks: (g.draw_ticks + 1) as i32, ..g1 },
                BowActions { movement, release: false, shoot: false, draw: false },
            )
        } else {
            (g1, BowActions { movement, release: false, shoot: false, draw: false })
        }
    } else {
        let cd = g.cooldown - 1;
        if cd <= 0 && see >= -60 && in_range(s.band) {
            (
                BowAttackGoal { cooldown: cd as i32, drawing: true, draw_ticks: 0, ..g1 },
                BowActions { movement, release: false, shoot: false, draw: true },
            )
        } else {
            (
                BowAttackGoal { cooldown: cd as i32, ..g1 },
                BowActions { movement, release: false, shoot: false, draw: false },
            )
        }
    }
}

/// The counters stay inside `i32` for one more tick.
pub open spec fn tick_fits(g: BowAttackGoal) -> bool {
    &&& i32::MIN + 1 < g.see_time < i32::MAX - 1
    &&& g.strafing_time < i32::MAX
    &&& g.cooldown > i32::MIN
    &&& g.draw_ticks < i32::MAX
}

impl BowAttackGoal {
    /// A goal that waits `attack_interval` ticks between shots.
    pub fn new(attack_interval: i32) -> (r: BowAttackGoal)
        ensures
            r.attack_interval == attack_interval,
            r.cooldown == -1,
            r.draw_ticks == 0,
            !r.drawing,
            r.see_time == 0,
            !r.strafing_clockwise,
            !r.strafing_backwards,
            r.strafing_time == -1,
    {
        BowAttackGoal {
            attack_interval,
            cooldown: -1,
            draw_ticks: 0,
            drawing: false,
            see_time: 0,
            strafing_clockwise: false,
            strafing_backwards: false,
            strafing_time: -1,
        }
    }

    /// The goal may run for a mob that is not sitting, whose target is alive
    /// and attackable, while it holds a bow.
    pub fn can_start(sitting: bool, target_alive: Option<bool>, can_attack: bool, holding_bow: bool) -> (r:
        bool)
        ensures
            r == (!sitting && target_alive == Some(true) && can_attack && holding_bow),
    {
        if sitting {
            return false;
        }
        match target_alive {
            None => false,
            Some(alive) => alive && can_attack && holding_bow,
        }
    }

    /// The goal goes on under the same conditions as it starts.
    pub fn should_continue(sitting: bool, target_alive: Option<bool>, can_attack: bool, holding_bow: bool) -> (r:
        bool)
        ensures
            r == (!sitting && target_alive == Some(true) && can_attack && holding_bow),
    {
        Self::can_start(sitting, target_alive, can_attack, holding_bow)
    }

    /// Starting resets the timers (the strafing direction is kept).
    pub fn start(&mut self)
        ensures
            *final(self) == (BowAttackGoal {
                cooldown: -1i32,
                draw_ticks: 0i32,
                drawing: false,
                see_time: 0i32,
                strafing_time: -1i32,
                ..*old(self)
            }),
    {
        self.cooldown = -1;
        self.draw_ticks = 0;
        self.drawing = false;
        self.see_time = 0;
        self.strafing_time = -1;
    }

    /// Lowers the bow if it is drawn; answers whether it was.
    pub fn stop_drawing(&mut self) -> (r: bool)
        ensures
            r == old(self).drawing,
            *final(self) == if old(self).drawing {
                BowAttackGoal { drawing: false, draw_ticks: 0, ..*old(self) }
            } else {
                *old(self)
            },
    {
        if self.drawing {
            self.drawing = false;
            self.draw_ticks = 0;
            true
        } else {
            false
        }
    }

    /// Stopping lowers the bow and resets the timers; answers whether the bow
    /// was drawn.
    pub fn stop(&mut self) -> (r: bool)
        ensures
            r == old(self).drawing,
            *final(self) == (BowAttackGoal {
                drawing: false,
                draw_ticks: if old(self).drawing {
                    0i32
                } else {
                    old(self).draw_ticks
                },
                cooldown: -1i32,
                see_time: 0i32,
                strafing_time: -1i32,
                ..*old(self)
            }),
    {
        let was = self.stop_drawing();
        self.cooldown = -1;
        self.see_time = 0;
        self.strafing_time = -1;
        was
    }

    /// One tick against a target: the sight counter, the strafing, and the
    /// drawing and release of the bow (see `spec_bow_tick`).
    pub fn tick(&mut self, s: &BowSenses) -> (r: BowActions)
        requires
            tick_fits(*old(self)),
        ensures
            (*final(self), r) == spec_bow_tick(*old(self), *s),
    {
        let in_reach = s.band != RangeBand::Outside;
        let had_sight = self.see_time > 0;
        if s.line_of_sight != had_sight {
            self.see_time = 0;
        }
        if s.line_of_sight {
            self.see_time = self.see_time + 1;
        } else {
            self.see_time = self.see_time - 1;
        }
        if in_reach && self.see_time >= 20 {
            self.strafing_time = self.strafing_time + 1;
        } else {
            self.strafing_time = -1;
        }
        if self.strafing_time >= 20 {
            if s.flip_clockwise {
                self.strafing_clockwise = !self.strafing_clockwise;
            }
            if s.flip_backwards {
                self.strafing_backwards = !self.strafing_backwards;
            }
            self.strafing_time = 0;
        }
        let movement = if self.strafing_time > -1 {
            if s.band == RangeBand::Edge || s.band == RangeBand::Outside {
                self.strafing_backwards = false;
            } else if s.band == RangeBand::Close {
                self.strafing_backwards = true;
            }
            BowMovement::Strafe {
                backwards: self.strafing_backwards,
                clockwise: self.strafing_clockwise,
            }
        } else {
            BowMovement::Chase
        };
        let mut actions = BowActions { movement, release: false, shoot: false, draw: false };
        if self.drawing {
            if !s.line_of_sight && self.see_time < -60 {
                self.drawing = false;
                self.draw_ticks = 0;
                actions.release = true;
            } else if s.line_of_sight {
                self.draw_ticks = self.draw_ticks + 1;
                if self.draw_ticks >= DRAW_TIME {
                    self.drawing = false;
                    self.draw_ticks = 0;
                    actions.shoot = true;
                    self.cooldown = match s.difficulty {
                        Difficulty::Hard => 20,
                        _ => self.attack_interval,
                    };
                }
            }
        } else {
            self.cooldown = self.cooldown - 1;
            if self.cooldown <= 0 && self.see_time >= -60 && in_reach {
                self.drawing = true;
                self.draw_ticks = 0;
                actions.draw = true;
            }
        }
        actions
    }

    /// The arrow each shooter fires.
    pub fn arrow_kind(shooter: EntityKind) -> (r: ArrowKind)
        ensures
            r == if shooter == EntityKind::Bogged {
                ArrowKind::Poison
            } else if shooter == EntityKind::Stray {
                ArrowKind::Slowness
            } else {
                ArrowKind::Plain
            },
    {
        if shooter == EntityKind::Bogged {
            ArrowKind::Poison
        } else if shooter == EntityKind::Stray {
            ArrowKind::Slowness
        } else {
            ArrowKind::Plain
        }
    }

    /// The spread of a mob's arrow: 14 less four per difficulty level
    /// (peaceful 0 .. hard 3).
    pub fn divergence(difficulty: Difficulty) -> (r: i32)
        ensures
            r == 14 - 4 * match difficulty {
                Difficulty::Peaceful => 0int,
                Difficulty::Easy => 1,
                Difficulty::Normal => 2,
                Difficulty::Hard => 3,
            },
    {
        match difficulty {
            Difficulty::Peaceful => 14,
            Difficulty::Easy => 10,
            Difficulty::Normal => 6,
            Difficulty::Hard => 2,
        }
    }
}

} // verus!
