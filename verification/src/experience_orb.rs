use vstd::prelude::*;

use crate::entity::Entity;

verus! {

/// An orb disappears once it is this many ticks old.
pub const ORB_LIFETIME: u32 = 6000;

/// The orb sizes the game uses, largest first.
pub open spec fn spec_round_to_orb_size(value: u32) -> u32 {
    if value >= 2477 {
        2477
    } else if value >= 1237 {
        1237
    } else if value >= 617 {
        617
    } else if value >= 307 {
        307
    } else if value >= 149 {
        149
    } else if value >= 73 {
        73
    } else if value >= 37 {
        37
    } else if value >= 17 {
        17
    } else if value >= 7 {
        7
    } else if value >= 3 {
        3
    } else {
        1
    }
}

/// The orbs `amount` experience splits into, each the largest orb size not
/// above what is left.
pub open spec fn spec_orbs(amount: u32) -> Seq<u32>
    decreases amount,
{
    if amount == 0 {
        seq![]
    } else {
        let i = spec_round_to_orb_size(amount);
        seq![i] + spec_orbs((amount - i) as u32)
    }
}

pub open spec fn seq_sum(s: Seq<u32>) -> int
    decreases s.len(),
{
    if s.len() == 0 {
        0
    } else {
        s[0] + seq_sum(s.drop_first())
    }
}

pub struct ExperienceOrbEntity {
    pub entity: Entity,
    pub amount: u32,
    pub orb_age: u32,
}

impl ExperienceOrbEntity {
    pub fn new(entity: Entity, amount: u32) -> (r: ExperienceOrbEntity)
        ensures
            r.entity == entity,
            r.amount == amount,
            r.orb_age == 0,
    {
        ExperienceOrbEntity { entity, amount, orb_age: 0 }
    }

    /// The largest orb size not above `value` (1 for 0 and 1).
    pub fn round_to_orb_size(value: u32) -> (r: u32)
        ensures
            r == spec_round_to_orb_size(value),
    {
        if value >= 2477 {
            2477
        } else if value >= 1237 {
            1237
        } else if value >= 617 {
            617
        } else if value >= 307 {
            307
        } else if value >= 149 {
            149
        } else if value >= 73 {
            73
        } else if value >= 37 {
            37
        } else if value >= 17 {
            17
        } else if value >= 7 {
            7
        } else if value >= 3 {
            3
        } else {
            1
        }
    }

    /// The amounts of the orbs spawned for `amount` experience, in spawn order.
    pub fn spawn_amounts(amount: u32) -> (r: Vec<u32>)
        ensures
            r@ == spec_orbs(amount),
            seq_sum(r@) == amount,
    {
        let mut out: Vec<u32> = Vec::new();
        let mut left = amount;
        proof {
            law_orbs_add_up(amount);
        }
        while left > 0
            invariant
                out@ + spec_orbs(left) == spec_orbs(amount),
                seq_sum(spec_orbs(left)) == left,
            decreases left,
        {
            let i = Self::round_to_orb_size(left);
            proof {
                assert(spec_orbs(left) == seq![i] + spec_orbs((left - i) as u32));
                assert((seq![i] + spec_orbs((left - i) as u32)).drop_first() =~= spec_orbs(
                    (left - i) as u32,
                ));
            }
            left = left - i;
            let ghost before = out@;
            out.push(i);
            proof {
                assert(out@ + spec_orbs(left) =~= before + (seq![i] + spec_orbs(left)));
            }
        }
        proof {
            assert(out@ + spec_orbs(0) =~= out@);
        }
        out
    }

    /// One tick of age; returns whether the orb is removed (it was 6000 ticks
    /// old or more).
    pub fn age_tick(&mut self) -> (r: bool)
        ensures
            r == (old(self).orb_age >= ORB_LIFETIME),
            final(self).orb_age == if old(self).orb_age < u32::MAX {
                old(self).orb_age + 1
            } else {
                0
            },
            final(self).amount == old(self).amount,
    {
        let age = self.orb_age;
        self.orb_age = age.wrapping_add(1);
        age >= ORB_LIFETIME
    }

    /// A player touches the orb: a living orb is picked up by a living player
    /// who is not spectating, once the player's pickup delay is zero (it then
    /// becomes 2).  Answers the experience handed over (mending takes its part
    /// first).
    pub fn on_player_collision(&self, orb_alive: bool, player_alive: bool, spectator: bool, pickup_delay: &mut u32) -> (r:
        Option<i32>)
        ensures
            r is Some == (orb_alive && player_alive && !spectator && *old(pickup_delay) == 0),
            r is Some ==> r == Some(self.amount as i32) && *final(pickup_delay) == 2,
            r is None ==> *final(pickup_delay) == *old(pickup_delay),
    {
        if !orb_alive || !player_alive || spectator {
            return None;
        }
        if *pickup_delay == 0 {
            *pickup_delay = 2;
            Some(self.amount as i32)
        } else {
            None
        }
    }

    /// What is left of the orb's experience after mending repairs items: it is
    /// added to the player when positive.
    pub fn experience_after_mending(remaining: i32) -> (r: Option<i32>)
        ensures
            r == if remaining > 0 {
                Some(remaining)
            } else {
                None
            },
    {
        if remaining > 0 {
            Some(remaining)
        } else {
            None
        }
    }
}

/// Every orb size taken from a positive amount is positive and fits in it.
pub proof fn law_orb_size_fits(value: u32)
    requires
        value > 0,
    ensures
        0 < spec_round_to_orb_size(value) <= value,
{
}

/// The orbs spawned for an amount of experience add up to exactly that amount.
pub proof fn law_orbs_add_up(amount: u32)
    ensures
        seq_sum(spec_orbs(amount)) == amount,
    decreases amount,
{
    if amount > 0 {
        let i = spec_round_to_orb_size(amount);
        law_orbs_add_up((amount - i) as u32);
        assert((seq![i] + spec_orbs((amount - i) as u32)).drop_first() =~= spec_orbs(
            (amount - i) as u32,
        ));
    }
}

} // verus!
