use vstd::prelude::*;

use crate::geometry::BlockPos;

verus! {

/// The first and last item ids of the sixteen cushions.
pub const FIRST_CUSHION_ID: u16 = 1626;
pub const LAST_CUSHION_ID: u16 = 1641;

pub struct CushionItem;

impl CushionItem {
    /// The colour index (0..=15) of a cushion item; 0 for any other item.
    pub fn item_id_to_color(item_id: u16) -> (r: u8)
        ensures
            r == if FIRST_CUSHION_ID <= item_id <= LAST_CUSHION_ID {
                item_id - FIRST_CUSHION_ID
            } else {
                0
            },
            r < 16,
    {
        if item_id >= FIRST_CUSHION_ID && item_id <= LAST_CUSHION_ID {
            (item_id - FIRST_CUSHION_ID) as u8
        } else {
            0
        }
    }

    /// Whether an item id is one of the cushions.
    pub fn is_cushion(item_id: u16) -> (r: bool)
        ensures
            r == (FIRST_CUSHION_ID <= item_id <= LAST_CUSHION_ID),
    {
        item_id >= FIRST_CUSHION_ID && item_id <= LAST_CUSHION_ID
    }
}

/// A cushion placed in the world: a seat of one of sixteen colours.
#[derive(Clone, Copy, Debug, PartialEq, Eq, Structural)]
pub struct CushionEntity {
    pub attached_pos: BlockPos,
    pub color: u8,
}

/// The item a cushion of colour `color` drops (colours past 15 count as 15).
pub open spec fn spec_drop_item_id(color: u8) -> u16 {
    (FIRST_CUSHION_ID + if color > 15 {
        15
    } else {
        color
    }) as u16
}

impl CushionEntity {
    pub fn new(attached_pos: BlockPos, color: u8) -> (r: CushionEntity)
        ensures
            r == (CushionEntity { attached_pos, color }),
    {
        CushionEntity { attached_pos, color }
    }

    pub fn get_color(&self) -> (r: u8)
        ensures
            r == self.color,
    {
        self.color
    }

    pub fn set_color(&mut self, color: u8)
        ensures
            *final(self) == (CushionEntity { color, ..*old(self) }),
    {
        self.color = color;
    }

    /// A player who is not sneaking sits on a free cushion.
    pub fn on_interact(&self, sneaking: bool, has_passengers: bool) -> (r: bool)
        ensures
            r == (!sneaking && !has_passengers),
    {
        !sneaking && !has_passengers
    }

    /// Getting up plays a sound unless the cushion is gone.
    pub fn on_passenger_removed(&self, removed: bool) -> (r: bool)
        ensures
            r == !removed,
    {
        !removed
    }

    /// The item id a broken cushion drops.
    pub fn drop_item_id(&self) -> (r: u16)
        ensures
            r == spec_drop_item_id(self.color),
    {
        let idx: u16 = if self.color > 15 {
            15
        } else {
            self.color as u16
        };
        FIRST_CUSHION_ID + idx
    }
}

/// The item a cushion drops places a cushion of the same colour again
/// (colours past 15 come back as 15).
pub proof fn law_dropped_cushion_keeps_color(color: u8)
    ensures
        FIRST_CUSHION_ID <= spec_drop_item_id(color) <= LAST_CUSHION_ID,
        spec_drop_item_id(color) - FIRST_CUSHION_ID == if color > 15 {
            15
        } else {
            color
        },
{
}

} // verus!
