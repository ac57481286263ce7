use vstd::prelude::*;

verus! {

/// How wide the spread of a fireball is.
#[derive(Clone, Copy, Debug, PartialEq, Eq, Structural)]
pub enum FireballSpread {
    /// The first fireball of a volley.
    Tight,
    /// The later ones.
    Wide,
}

/// What the blaze does in one tick of its attack goal.
#[derive(Clone, Copy, Debug, PartialEq, Eq, Structural)]
pub struct BlazeActions {
    /// Hit the target in melee and set it on fire.
    pub melee_attack: bool,
    /// Move towards the target.
    pub approach: bool,
    /// Turn the blaze's charged look on or off.
    pub set_charged: Option<bool>,
    /// Shoot a small fireball.
    pub fireball: Option<FireballSpread>,
    /// Look at where the target will be.
    pub look_at_target: bool,
}

pub open spec fn no_actions() -> BlazeActions {
    BlazeActions {
        melee_attack: false,
        approach: false,
        set_charged: None,
        fireball: None,
        look_at_target: false,
    }
}

/// The blaze's attack: melee when close, else volleys of three fireballs
/// after a charge of 60 ticks, 6 ticks apart, then a pause of 100 ticks.
pub struct BlazeShootFireballGoal {
    pub attack_step: i32,
    pub attack_time: i32,
    pub melee_cooldown: i32,
    pub last_seen: i32,
}

impl BlazeShootFireballGoal {
    /// The step of a volley always lies in 0..=4.
    pub open spec fn wf(&self) -> bool {
        0 <= self.attack_step <= 4
    }

    pub fn new() -> (r: BlazeShootFireballGoal)
        ensures
            r.wf(),
            r.attack_step == 0,
            r.attack_time == 0,
            r.melee_cooldown == 0,
            r.last_seen == 0,
    {
        BlazeShootFireballGoal { attack_step: 0, attack_time: 0, melee_cooldown: 0, last_seen: 0 }
    }

    /// The goal runs while the blaze has a living target.
    pub fn can_start(&self, has_live_target: bool) -> (r: bool)
        ensures
            r == has_live_target,
    {
        has_live_target
    }

    pub fn should_continue(&self, has_live_target: bool) -> (r: bool)
        ensures
            r == has_live_target,
    {
        has_live_target
    }

    pub fn start(&mut self)
        ensures
            final(self).wf(),
            final(self).attack_step == 0,
            final(self).melee_cooldown == 0,
            final(self).attack_time == old(self).attack_time,
            final(self).last_seen == old(self).last_seen,
    {
        self.attack_step = 0;
        self.melee_cooldown = 0;
    }

    /// Stops the attack; the blaze is no longer charged.
    pub fn stop(&mut self)
        ensures
            final(self).wf(),
            final(self).attack_step == 0,
            final(self).melee_cooldown == 0,
            final(self).last_seen == 0,
            final(self).attack_time == old(self).attack_time,
    {
        self.last_seen = 0;
        self.attack_step = 0;
        self.melee_cooldown = 0;
    }

    /// One tick.  `has_target`: the blaze has a target; `in_attack_range`: the
    /// target is within the blaze's melee reach; `close`: it is nearer than
    /// three blocks; `within_follow`: nearer than 48 blocks.
    pub fn tick(
        &mut self,
        has_target: bool,
        in_attack_range: bool,
        close: bool,
        within_follow: bool,
    ) -> (r: BlazeActions)
        requires
            old(self).wf(),
            old(self).attack_time > i32::MIN,
            old(self).melee_cooldown > i32::MIN,
        ensures
            final(self).wf(),
            final(self).melee_cooldown == if has_target && (in_attack_range || close) && old(self).melee_cooldown - 1 <= 0 {
                20
            } else {
                old(self).melee_cooldown - 1
            },
            !has_target ==> r == no_actions() && final(self).attack_step == old(self).attack_step
                && final(self).attack_time == old(self).attack_time - 1,
            has_target ==> final(self).last_seen == 0,
            !has_target ==> final(self).last_seen == old(self).last_seen,
            has_target ==> r.melee_attack == ((in_attack_range || close) && old(self).melee_cooldown
                - 1 <= 0),
            has_target ==> r.approach,
            has_target ==> r.look_at_target == within_follow,
            has_target && !(within_follow && old(self).attack_time - 1 <= 0) ==> {
                &&& final(self).attack_step == old(self).attack_step
                &&& final(self).attack_time == old(self).attack_time - 1
                &&& r.set_charged is None
                &&& r.fireball is None
            },
            has_target && within_follow && old(self).attack_time - 1 <= 0 ==> {
                let step = old(self).attack_step + 1;
                &&& step == 1 ==> final(self).attack_step == 1 && final(self).attack_time == 60
                    && r.set_charged == Some(true) && r.fireball is None
                &&& (2 <= step <= 4) ==> final(self).attack_step == step && final(self).attack_time
                    == 6 && r.set_charged is None && r.fireball == Some(
                    if step == 2 {
                        FireballSpread::Tight
                    } else {
                        FireballSpread::Wide
                    },
                )
                &&& step == 5 ==> final(self).attack_step == 0 && final(self).attack_time == 100
                    && r.set_charged == Some(false) && r.fireball is None
            },
    {
        self.attack_time = self.attack_time - 1;
        self.melee_cooldown = self.melee_cooldown - 1;
        let mut actions = BlazeActions {
            melee_attack: false,
            approach: false,
            set_charged: None,
            fireball: None,
            look_at_target: false,
        };
        if !has_target {
            return actions;
        }
        self.last_seen = 0;
        let in_melee_range = in_attack_range || close;
        if in_melee_range {
            if self.melee_cooldown <= 0 {
                self.melee_cooldown = 20;
                actions.melee_attack = true;
            }
            actions.approach = true;
        }
        if within_follow {
            if !close {
                actions.approach = true;
            }
            if self.attack_time <= 0 {
                self.attack_step = self.attack_step + 1;
                if self.attack_step == 1 {
                    self.attack_time = 60;
                    actions.set_charged = Some(true);
                } else if self.attack_step <= 4 {
                    self.attack_time = 6;
                } else {
                    self.attack_time = 100;
                    self.attack_step = 0;
                    actions.set_charged = Some(false);
                }
                if self.attack_step > 1 {
                    actions.fireball = Some(
                        if self.attack_step == 2 {
                            FireballSpread::Tight
                        } else {
                            FireballSpread::Wide
                        },
                    );
                }
            }
            actions.look_at_target = true;
        } else if self.last_seen < 5 {
            actions.approach = true;
        }
        actions
    }
}

} // verus!
