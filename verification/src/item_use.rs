use vstd::prelude::*;

use crate::item::Item;

verus! {

/// A hand of a player.
#[derive(Clone, Copy, Debug, PartialEq, Eq, Structural)]
pub enum Hand {
    Main,
    Off,
}

/// Bone meal used on a block.
pub struct BoneMealItem;

/// What using bone meal did.
#[derive(Clone, Copy, Debug, PartialEq, Eq, Structural)]
pub struct BoneMealUse {
    /// The growth particles and sound play and the player swings the hand.
    pub effects: bool,
    /// One bone meal is used.
    pub consume: bool,
}

impl BoneMealItem {
    /// When the block took the bone meal (`grew`), the effects play and one
    /// item is used unless the player is in creative.
    pub fn use_on_block(grew: bool, creative: bool) -> (r: BoneMealUse)
        ensures
            r == (BoneMealUse { effects: grew, consume: grew && !creative }),
    {
        BoneMealUse { effects: grew, consume: grew && !creative }
    }
}

/// A wind charge thrown by a player.
pub struct WindChargeItem;

/// The ticks before a player can throw the next wind charge.
pub const WIND_CHARGE_COOLDOWN: i32 = 10;

/// What throwing a wind charge did.
#[derive(Clone, Copy, Debug, PartialEq, Eq, Structural)]
pub struct WindChargeThrow {
    /// A charge flies and the cooldown starts.
    pub thrown: bool,
    /// The hand whose stack pays for it (nothing is taken in creative).
    pub taken_from: Option<Hand>,
}

impl WindChargeItem {
    /// Throwing: nothing while the cooldown runs; otherwise the charge flies
    /// and is taken from the main hand when it holds wind charges, else from
    /// the off hand when that does (`None` for an empty hand).
    pub fn normal_use(cooling_down: bool, main_hand: Option<Item>, off_hand: Option<Item>) -> (r:
        WindChargeThrow)
        ensures
            cooling_down ==> r == (WindChargeThrow { thrown: false, taken_from: None }),
            !cooling_down ==> r.thrown && r.taken_from == if main_hand == Some(Item::WindCharge) {
                Some(Hand::Main)
            } else if off_hand == Some(Item::WindCharge) {
                Some(Hand::Off)
            } else {
                None
            },
    {
        if cooling_down {
            return WindChargeThrow { thrown: false, taken_from: None };
        }
        let taken_from = if main_hand == Some(Item::WindCharge) {
            Some(Hand::Main)
        } else if off_hand == Some(Item::WindCharge) {
            Some(Hand::Off)
        } else {
            None
        };
        WindChargeThrow { thrown: true, taken_from }
    }
}

} // verus!
