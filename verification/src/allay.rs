use vstd::prelude::*;

use crate::geometry::BlockPos;
use crate::item::Item;
use crate::rng::random_range_i32;
use crate::world::{spec_is_air, Block, BlockWorld};

verus! {

/// The ticks an allay waits between two duplications.
pub const DUPLICATION_COOLDOWN_TICKS: i32 = 6000;

/// An allay heals once every this many ticks.
pub const HEAL_INTERVAL_TICKS: u32 = 10;

/// The ticks an allay remembers a note block it heard.
pub const NOTEBLOCK_MEMORY_TICKS: i32 = 600;

/// The parts of an allay that its rules read and write (its inventory of
/// collected stacks stays with the caller).
#[derive(Clone, Copy, Debug, PartialEq, Eq, Structural)]
pub struct AllayEntity {
    pub dancing: bool,
    pub can_duplicate: bool,
    pub duplication_cooldown: i32,
    pub owner: Option<u128>,
    pub liked_noteblock_pos: Option<BlockPos>,
    pub liked_noteblock_ticks: i32,
    pub jukebox_pos: Option<BlockPos>,
    pub item_pickup_cooldown: i32,
    /// The item the allay holds (it collects more of it).
    pub held_item: Option<Item>,
    pub tick_count: i32,
    pub ambient_sound_time: i32,
}

/// What a player's use of an item on an allay did.
#[derive(Clone, Copy, Debug, PartialEq, Eq, Structural)]
pub enum AllayInteraction {
    /// A dancing allay took an amethyst shard and duplicates (one shard used
    /// unless creative).
    Duplicate,
    /// The allay took one of the item and likes the player.
    Give,
    /// The player took the held item back (and the collected stacks).
    Take,
    Pass,
}

/// What a tick of the allay's own clocks calls for.
#[derive(Clone, Copy, Debug, PartialEq, Eq, Structural)]
pub struct AllayTick {
    /// One point of health comes back.
    pub heal: bool,
    /// The duplication cooldown ran out.
    pub duplication_ready: bool,
    /// The music stopped for the allay: it no longer dances.
    pub stopped_dancing: bool,
    /// The idle sound plays (with or without an item).
    pub ambient_sound: bool,
}

/// Where the allay's errand stands, as the caller measured it.
#[derive(Clone, Copy, Debug, PartialEq, Eq, Structural)]
pub struct DepositTarget {
    /// Within three blocks: close enough to throw the items.
    pub within_throw: bool,
    /// More than four blocks away.
    pub beyond_four: bool,
}

/// The nearest item on the ground that matches the held one.
#[derive(Clone, Copy, Debug, PartialEq, Eq, Structural)]
pub struct GroundItem {
    pub entity_id: i32,
    /// Within one and a half blocks: close enough to pick up.
    pub within_reach: bool,
}

/// What the allay's errand does this tick.
#[derive(Clone, Copy, Debug, PartialEq, Eq, Structural)]
pub enum AllayErrand {
    /// Nothing to do.
    Idle,
    /// Throws all collected stacks to the target and stops.
    Throw,
    /// Flies to the deposit target.
    FlyToTarget,
    /// Picks up the item entity, and in the same tick flies on to the
    /// deposit target when it is more than four blocks away.
    PickUp { entity_id: i32, then_fly_to_target: bool },
    /// Flies to the item entity.
    FlyToItem { entity_id: i32 },
}

impl AllayEntity {
    /// A new allay: not dancing, able to duplicate, with no owner or memories.
    pub fn new() -> (r: AllayEntity)
        ensures
            r == (AllayEntity {
                dancing: false,
                can_duplicate: true,
                duplication_cooldown: 0,
                owner: None,
                liked_noteblock_pos: None,
                liked_noteblock_ticks: 0,
                jukebox_pos: None,
                item_pickup_cooldown: 0,
                held_item: None,
                tick_count: 0,
                ambient_sound_time: -80i32,
            }),
    {
        AllayEntity {
            dancing: false,
            can_duplicate: true,
            duplication_cooldown: 0,
            owner: None,
            liked_noteblock_pos: None,
            liked_noteblock_ticks: 0,
            jukebox_pos: None,
            item_pickup_cooldown: 0,
            held_item: None,
            tick_count: 0,
            ambient_sound_time: -80,
        }
    }

    /// Passive mobs never despawn when far from players.
    pub fn remove_when_far_away(&self) -> (r: bool)
        ensures
            !r,
    {
        false
    }

    pub fn is_dancing(&self) -> (r: bool)
        ensures
            r == self.dancing,
    {
        self.dancing
    }

    pub fn set_dancing(&mut self, dancing: bool)
        ensures
            *final(self) == (AllayEntity { dancing, ..*old(self) }),
    {
        self.dancing = dancing;
    }

    pub fn can_duplicate(&self) -> (r: bool)
        ensures
            r == self.can_duplicate,
    {
        self.can_duplicate
    }

    pub fn set_can_duplicate(&mut self, can_duplicate: bool)
        ensures
            *final(self) == (AllayEntity { can_duplicate, ..*old(self) }),
    {
        self.can_duplicate = can_duplicate;
    }

    pub fn has_item_in_hand(&self) -> (r: bool)
        ensures
            r == self.held_item is Some,
    {
        self.held_item.is_some()
    }

    /// A note block played at `pos`: the allay remembers it for 600 ticks.
    pub fn hear_noteblock(&mut self, pos: BlockPos)
        ensures
            *final(self) == (AllayEntity {
                liked_noteblock_pos: Some(pos),
                liked_noteblock_ticks: NOTEBLOCK_MEMORY_TICKS,
                ..*old(self)
            }),
    {
        self.liked_noteblock_pos = Some(pos);
        self.liked_noteblock_ticks = NOTEBLOCK_MEMORY_TICKS;
    }

    /// A jukebox at `pos` started (`playing`) or stopped: music starts the
    /// dance and the allay remembers the jukebox; it stops the dance when it
    /// is the remembered jukebox (or none is remembered).
    pub fn hear_jukebox(&mut self, pos: BlockPos, playing: bool)
        ensures
            playing && !old(self).dancing ==> *final(self) == (AllayEntity {
                jukebox_pos: Some(pos),
                dancing: true,
                ..*old(self)
            }),
            !playing && old(self).dancing && (old(self).jukebox_pos == Some(pos) || old(self).jukebox_pos is None) ==> *final(self) == (AllayEntity {
                jukebox_pos: None,
                dancing: false,
                ..*old(self)
            }),
            (playing && old(self).dancing) || (!playing && !(old(self).dancing && (old(self).jukebox_pos == Some(pos) || old(self).jukebox_pos is None))) ==> *final(self)
                == *old(self),
    {
        if playing {
            if !self.dancing {
                self.jukebox_pos = Some(pos);
                self.dancing = true;
            }
        } else if self.dancing {
            if self.jukebox_pos == Some(pos) || self.jukebox_pos.is_none() {
                self.jukebox_pos = None;
                self.dancing = false;
            }
        }
    }

    /// A tick of the allay's clocks for the given idle-sound `roll` of
    /// 0..1000: it heals every 10th tick; the duplication cooldown runs down
    /// (duplication is possible again when it reaches zero); every 20th tick a
    /// dancing allay stops when its jukebox is gone, out of reach
    /// (`jukebox_in_reach` false) or no longer a jukebox; the idle sound plays
    /// when its timer is positive and above the roll, and the timer restarts
    /// at -80.
    pub fn tick_with(&mut self, world: &BlockWorld, jukebox_in_reach: bool, roll: i32) -> (r: AllayTick)
        requires
            0 <= old(self).tick_count < i32::MAX,
            old(self).ambient_sound_time < i32::MAX,
        ensures
            final(self).tick_count == old(self).tick_count + 1,
            r.heal == ((old(self).tick_count + 1) % 10 == 0),
            r.duplication_ready == (old(self).duplication_cooldown == 1),
            final(self).duplication_cooldown == if old(self).duplication_cooldown > 0 {
                old(self).duplication_cooldown - 1
            } else {
                old(self).duplication_cooldown as int
            },
            final(self).can_duplicate == (old(self).can_duplicate || r.duplication_ready),
            r.stopped_dancing == ((old(self).tick_count + 1) % 20 == 0 && old(self).dancing && (
            old(self).jukebox_pos is None || !jukebox_in_reach || world.get_spec(
                old(self).jukebox_pos->0,
            ).block != Block::Jukebox)),
            final(self).dancing == (old(self).dancing && !r.stopped_dancing),
            final(self).jukebox_pos == if r.stopped_dancing {
                None
            } else {
                old(self).jukebox_pos
            },
            r.ambient_sound == (old(self).ambient_sound_time > 0 && roll
                < old(self).ambient_sound_time),
            final(self).ambient_sound_time == if r.ambient_sound {
                -80
            } else {
                old(self).ambient_sound_time + 1
            },
            final(self).owner == old(self).owner,
            final(self).held_item == old(self).held_item,
            final(self).liked_noteblock_pos == old(self).liked_noteblock_pos,
            final(self).liked_noteblock_ticks == old(self).liked_noteblock_ticks,
            final(self).item_pickup_cooldown == old(self).item_pickup_cooldown,
    {
        self.tick_count = self.tick_count + 1;
        let ticks = self.tick_count;
        let heal = ticks % 10 == 0;
        let mut duplication_ready = false;
        if self.duplication_cooldown > 0 {
            self.duplication_cooldown = self.duplication_cooldown - 1;
            if self.duplication_cooldown == 0 {
                self.can_duplicate = true;
                duplication_ready = true;
            }
        }
        let mut stopped = false;
        if ticks % 20 == 0 && self.dancing {
            let stop = match self.jukebox_pos {
                Some(j) => !jukebox_in_reach || world.get_block(&j) != Block::Jukebox,
                None => true,
            };
            if stop {
                self.jukebox_pos = None;
                self.dancing = false;
                stopped = true;
            }
        }
        let timer = self.ambient_sound_time;
        self.ambient_sound_time = timer + 1;
        let ambient = timer > 0 && roll < timer;
        if ambient {
            self.ambient_sound_time = -80;
        }
        AllayTick { heal, duplication_ready, stopped_dancing: stopped, ambient_sound: ambient }
    }

    /// A tick (see `tick_with`), drawing the idle-sound roll from 0..1000
    /// when the timer is positive.
    pub fn tick(&mut self, world: &BlockWorld, jukebox_in_reach: bool) -> (r: AllayTick)
        requires
            0 <= old(self).tick_count < i32::MAX,
            old(self).ambient_sound_time < i32::MAX,
        ensures
            final(self).tick_count == old(self).tick_count + 1,
            r.heal == ((old(self).tick_count + 1) % 10 == 0),
            r.ambient_sound ==> old(self).ambient_sound_time > 0 && final(self).ambient_sound_time
                == -80,
    {
        let roll = if self.ambient_sound_time > 0 {
            random_range_i32(0, 1000)
        } else {
            0
        };
        self.tick_with(world, jukebox_in_reach, roll)
    }

    /// Being hurt silences the allay for a while and stops its dance.
    pub fn on_damage(&mut self)
        ensures
            *final(self) == (AllayEntity {
                ambient_sound_time: -80i32,
                dancing: false,
                jukebox_pos: if old(self).dancing {
                    None
                } else {
                    old(self).jukebox_pos
                },
                ..*old(self)
            }),
    {
        self.ambient_sound_time = -80;
        if self.dancing {
            self.jukebox_pos = None;
            self.dancing = false;
        }
    }

    /// A player uses `item` (`None` for an empty hand) on the allay: a dancing
    /// allay that can duplicate takes an amethyst shard and duplicates; an
    /// empty-handed allay takes one of the item and likes the player; an
    /// allay holding something gives it back to an empty hand and forgets its
    /// player and note block.
    pub fn mob_interact(&mut self, item: Option<Item>, player: u128) -> (r: AllayInteraction)
        ensures
            old(self).dancing && old(self).can_duplicate && item == Some(Item::AmethystShard)
                ==> r == AllayInteraction::Duplicate && *final(self) == (AllayEntity {
                can_duplicate: false,
                duplication_cooldown: DUPLICATION_COOLDOWN_TICKS,
                ..*old(self)
            }),
            !(old(self).dancing && old(self).can_duplicate && item == Some(Item::AmethystShard))
                && old(self).held_item is None && item is Some ==> r == AllayInteraction::Give
                && *final(self) == (AllayEntity {
                held_item: item,
                owner: Some(player),
                ..*old(self)
            }),
            !(old(self).dancing && old(self).can_duplicate && item == Some(Item::AmethystShard))
                && old(self).held_item is Some && item is None ==> r == AllayInteraction::Take
                && *final(self) == (AllayEntity {
                held_item: None,
                owner: None,
                liked_noteblock_pos: None,
                liked_noteblock_ticks: 0,
                ..*old(self)
            }),
            !(old(self).dancing && old(self).can_duplicate && item == Some(Item::AmethystShard))
                && (old(self).held_item is None) == (item is None) ==> r == AllayInteraction::Pass
                && *final(self) == *old(self),
    {
        if self.dancing && self.can_duplicate && item == Some(Item::AmethystShard) {
            self.can_duplicate = false;
            self.duplication_cooldown = DUPLICATION_COOLDOWN_TICKS;
            return AllayInteraction::Duplicate;
        }
        if self.held_item.is_none() && item.is_some() {
            self.held_item = item;
            self.owner = Some(player);
            return AllayInteraction::Give;
        }
        if self.held_item.is_some() && item.is_none() {
            self.held_item = None;
            self.owner = None;
            self.liked_noteblock_pos = None;
            self.liked_noteblock_ticks = 0;
            return AllayInteraction::Take;
        }
        AllayInteraction::Pass
    }

    /// Loads saved data: a saved cooldown above zero forbids duplication; a
    /// note block is loaded only with all three coordinates, its ticks
    /// defaulting to 600.
    pub fn read_saved(
        &mut self,
        can_duplicate: Option<bool>,
        cooldown: Option<i32>,
        owner: Option<u128>,
        noteblock: (Option<i32>, Option<i32>, Option<i32>),
        noteblock_ticks: Option<i32>,
    )
        ensures
            final(self).can_duplicate == if cooldown matches Some(c) && c > 0 {
                false
            } else {
                match can_duplicate {
                    Some(v) => v,
                    None => old(self).can_duplicate,
                }
            },
            final(self).duplication_cooldown == match cooldown {
                Some(c) => c,
                None => old(self).duplication_cooldown,
            },
            final(self).owner == match owner {
                Some(o) => Some(o),
                None => old(self).owner,
            },
            (final(self).liked_noteblock_pos, final(self).liked_noteblock_ticks) == match noteblock {
                (Some(x), Some(y), Some(z)) => (
                    Some(BlockPos { x, y, z }),
                    match noteblock_ticks {
                        Some(t) => t,
                        None => NOTEBLOCK_MEMORY_TICKS,
                    },
                ),
                _ => (old(self).liked_noteblock_pos, old(self).liked_noteblock_ticks),
            },
            final(self).dancing == old(self).dancing,
            final(self).held_item == old(self).held_item,
    {
        if let Some(v) = can_duplicate {
            self.can_duplicate = v;
        }
        if let Some(c) = cooldown {
            self.duplication_cooldown = c;
            if c > 0 {
                self.can_duplicate = false;
            }
        }
        if let Some(o) = owner {
            self.owner = Some(o);
        }
        if let (Some(x), Some(y), Some(z)) = noteblock {
            self.liked_noteblock_pos = Some(BlockPos { x, y, z });
            self.liked_noteblock_ticks = match noteblock_ticks {
                Some(t) => t,
                None => NOTEBLOCK_MEMORY_TICKS,
            };
        }
    }
}

/// The allay's errand: collect items like the held one and bring them to its
/// player or liked note block.
pub struct AllayRetrieveAndDepositGoal;

impl AllayRetrieveAndDepositGoal {
    /// The errand runs while the allay holds an item.
    pub fn can_start(allay: &AllayEntity) -> (r: bool)
        ensures
            r == allay.held_item is Some,
    {
        allay.has_item_in_hand()
    }

    pub fn should_continue(allay: &AllayEntity) -> (r: bool)
        ensures
            r == allay.held_item is Some,
    {
        allay.has_item_in_hand()
    }

    /// The first part of a tick: the note block memory fades (forgotten when it
    /// runs out, or when the note block is gone), and the pickup cooldown runs
    /// down.
    pub fn tick_memory(allay: &mut AllayEntity, world: &BlockWorld)
        ensures
            final(allay).liked_noteblock_ticks == if old(allay).liked_noteblock_ticks > 0 {
                old(allay).liked_noteblock_ticks - 1
            } else {
                old(allay).liked_noteblock_ticks as int
            },
            final(allay).liked_noteblock_pos == if old(allay).liked_noteblock_ticks == 1 {
                None
            } else {
                match old(allay).liked_noteblock_pos {
                    Some(p) => if spec_is_air(world.get_spec(p)) {
                        None
                    } else {
                        Some(p)
                    },
                    None => None,
                }
            },
            final(allay).item_pickup_cooldown == if old(allay).item_pickup_cooldown > 0 {
                old(allay).item_pickup_cooldown - 1
            } else {
                old(allay).item_pickup_cooldown as int
            },
            *final(allay) == (AllayEntity {
                liked_noteblock_ticks: final(allay).liked_noteblock_ticks,
                liked_noteblock_pos: final(allay).liked_noteblock_pos,
                item_pickup_cooldown: final(allay).item_pickup_cooldown,
                ..*old(allay)
            }),
    {
        if allay.liked_noteblock_ticks > 0 {
            allay.liked_noteblock_ticks = allay.liked_noteblock_ticks - 1;
            if allay.liked_noteblock_ticks == 0 {
                allay.liked_noteblock_pos = None;
            }
        }
        if let Some(p) = allay.liked_noteblock_pos {
            if world.get_block_state(&p).is_air() {
                allay.liked_noteblock_pos = None;
            }
        }
        if allay.item_pickup_cooldown > 0 {
            allay.item_pickup_cooldown = allay.item_pickup_cooldown - 1;
        }
    }

    /// The rest of a tick, for an allay holding an item: with collected stacks
    /// it throws them when the target is within three blocks (the pickup
    /// cooldown becomes 60) and flies there otherwise; without, once the pickup
    /// cooldown is zero it picks up a matching item within reach (cooldown 20,
    /// and on to a target more than four blocks away) or flies to the nearest
    /// one; failing that it flies to a target more than four blocks away.
    pub fn errand(
        allay: &mut AllayEntity,
        has_collected: bool,
        target: Option<DepositTarget>,
        nearest_item: Option<GroundItem>,
    ) -> (r: AllayErrand)
        ensures
            old(allay).held_item is None ==> r == AllayErrand::Idle && *final(allay) == *old(allay),
            old(allay).held_item is Some ==> (r, *final(allay)) == if has_collected {
                match target {
                    Some(t) => if t.within_throw {
                        (AllayErrand::Throw, AllayEntity { item_pickup_cooldown: 60, ..*old(allay) })
                    } else {
                        (AllayErrand::FlyToTarget, *old(allay))
                    },
                    None => (AllayErrand::Idle, *old(allay)),
                }
            } else if old(allay).item_pickup_cooldown == 0 && nearest_item is Some {
                if nearest_item->0.within_reach {
                    (
                        AllayErrand::PickUp {
                            entity_id: nearest_item->0.entity_id,
                            then_fly_to_target: target matches Some(t) && t.beyond_four,
                        },
                        AllayEntity { item_pickup_cooldown: 20, ..*old(allay) },
                    )
                } else {
                    (AllayErrand::FlyToItem { entity_id: nearest_item->0.entity_id }, *old(allay))
                }
            } else {
                match target {
                    Some(t) => if t.beyond_four {
                        (AllayErrand::FlyToTarget, *old(allay))
                    } else {
                        (AllayErrand::Idle, *old(allay))
                    },
                    None => (AllayErrand::Idle, *old(allay)),
                }
            },
    {
        if allay.held_item.is_none() {
            return AllayErrand::Idle;
        }
        if has_collected {
            return match target {
                Some(t) => if t.within_throw {
                    allay.item_pickup_cooldown = 60;
                    AllayErrand::Throw
                } else {
                    AllayErrand::FlyToTarget
                },
                None => AllayErrand::Idle,
            };
        }
        if allay.item_pickup_cooldown == 0 {
            if let Some(item) = nearest_item {
                if item.within_reach {
                    allay.item_pickup_cooldown = 20;
                    let fly_on = match target {
                        Some(t) => t.beyond_four,
                        None => false,
                    };
                    return AllayErrand::PickUp { entity_id: item.entity_id, then_fly_to_target: fly_on };
                } else {
                    return AllayErrand::FlyToItem { entity_id: item.entity_id };
                }
            }
        }
        match target {
            Some(t) => if t.beyond_four {
                AllayErrand::FlyToTarget
            } else {
                AllayErrand::Idle
            },
            None => AllayErrand::Idle,
        }
    }
}

} // verus!
