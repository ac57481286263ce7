use vstd::prelude::*;

use crate::item::Item;
use crate::rng::random_range_i32;

verus! {

/// The behaviours a sulfur cube takes from the block it swallowed, in the
/// order in which their item tags are tried.
#[derive(Clone, Copy, Debug, PartialEq, Eq, Structural)]
pub enum Archetype {
    Hot,
    Explosive,
    Sticky,
    HighResistance,
    FastSliding,
    SlowSliding,
    FastFlat,
    SlowFlat,
    Bouncy,
    SlowBouncy,
    Light,
    Regular,
}

pub open spec fn archetype_order() -> Seq<Archetype> {
    seq![
        Archetype::Hot,
        Archetype::Explosive,
        Archetype::Sticky,
        Archetype::HighResistance,
        Archetype::FastSliding,
        Archetype::SlowSliding,
        Archetype::FastFlat,
        Archetype::SlowFlat,
        Archetype::Bouncy,
        Archetype::SlowBouncy,
        Archetype::Light,
        Archetype::Regular,
    ]
}

/// The fuse of an archetype: only the explosive one has one, of 120 ticks.
pub open spec fn spec_fuse(a: Archetype) -> Option<i32> {
    if a == Archetype::Explosive {
        Some(120)
    } else {
        None
    }
}

/// The archetypes that float up in water and lava.
pub open spec fn spec_buoyant(a: Archetype) -> bool {
    a == Archetype::Regular || a == Archetype::Bouncy || a == Archetype::Light || a
        == Archetype::Explosive || a == Archetype::Hot
}

/// The ticks between two push sounds of an archetype.
pub open spec fn spec_push_cooldown_ticks(a: Archetype) -> i32 {
    match a {
        Archetype::Regular | Archetype::Sticky => 10,
        Archetype::Bouncy | Archetype::Light | Archetype::HighResistance | Archetype::Explosive
        | Archetype::Hot => 14,
        Archetype::SlowBouncy => 10,
        Archetype::SlowFlat | Archetype::FastFlat => 18,
        Archetype::FastSliding | Archetype::SlowSliding => 20,
    }
}

impl Archetype {
    pub fn fuse(self) -> (r: Option<i32>)
        ensures
            r == spec_fuse(self),
    {
        if self == Archetype::Explosive {
            Some(120)
        } else {
            None
        }
    }

    pub fn buoyant(self) -> (r: bool)
        ensures
            r == spec_buoyant(self),
    {
        self == Archetype::Regular || self == Archetype::Bouncy || self == Archetype::Light || self
            == Archetype::Explosive || self == Archetype::Hot
    }

    /// Only the hot archetype burns what touches it.
    pub fn has_contact_damage(self) -> (r: bool)
        ensures
            r == (self == Archetype::Hot),
    {
        self == Archetype::Hot
    }

    pub fn push_cooldown_ticks(self) -> (r: i32)
        ensures
            r == spec_push_cooldown_ticks(self),
    {
        match self {
            Archetype::Regular | Archetype::Sticky => 10,
            Archetype::Bouncy | Archetype::Light | Archetype::HighResistance
            | Archetype::Explosive | Archetype::Hot => 14,
            Archetype::SlowBouncy => 10,
            Archetype::SlowFlat | Archetype::FastFlat => 18,
            Archetype::FastSliding | Archetype::SlowSliding => 20,
        }
    }
}

/// The first archetype, in `archetype_order`, whose tag the item carries;
/// failing that, regular for an item tagged swallowable.
pub open spec fn spec_archetype_for(tags: Seq<bool>, swallowable_tag: bool, i: int) -> Option<
    Archetype,
>
    decreases 12 - i,
{
    if i < 0 || i >= 12 {
        if swallowable_tag {
            Some(Archetype::Regular)
        } else {
            None
        }
    } else if tags[i] {
        Some(archetype_order()[i])
    } else {
        spec_archetype_for(tags, swallowable_tag, i + 1)
    }
}

/// The archetype of an item, from its archetype tags (in `archetype_order`)
/// and its swallowable tag.
pub fn get_archetype_for_item(tags: &[bool; 12], swallowable_tag: bool) -> (r: Option<Archetype>)
    ensures
        r == spec_archetype_for(tags@, swallowable_tag, 0),
{
    let order: [Archetype; 12] = [
        Archetype::Hot,
        Archetype::Explosive,
        Archetype::Sticky,
        Archetype::HighResistance,
        Archetype::FastSliding,
        Archetype::SlowSliding,
        Archetype::FastFlat,
        Archetype::SlowFlat,
        Archetype::Bouncy,
        Archetype::SlowBouncy,
        Archetype::Light,
        Archetype::Regular,
    ];
    assert(order@ == archetype_order());
    let mut i: usize = 0;
    while i < 12
        invariant
            0 <= i <= 12,
            order@ == archetype_order(),
            spec_archetype_for(tags@, swallowable_tag, 0) == spec_archetype_for(
                tags@,
                swallowable_tag,
                i as int,
            ),
        decreases 12 - i,
    {
        if tags[i] {
            return Some(order[i]);
        }
        i += 1;
    }
    if swallowable_tag {
        Some(Archetype::Regular)
    } else {
        None
    }
}

/// What the rules read of an item stack: the item, its archetype (see
/// `get_archetype_for_item`) and its food and swallowable tags.
#[derive(Clone, Copy, Debug, PartialEq, Eq, Structural)]
pub struct CubeItem {
    pub item: Item,
    pub archetype: Option<Archetype>,
    pub food_tag: bool,
    pub swallowable_tag: bool,
}

/// Sulfur cubes eat slime balls and their food tag.
pub open spec fn spec_is_food(i: CubeItem) -> bool {
    i.food_tag || i.item == Item::SlimeBall
}

/// Sulfur cubes swallow items tagged swallowable and items with an archetype.
pub open spec fn spec_is_swallowable(i: CubeItem) -> bool {
    i.swallowable_tag || i.archetype is Some
}

pub fn is_food_item(i: &CubeItem) -> (r: bool)
    ensures
        r == spec_is_food(*i),
{
    i.food_tag || i.item == Item::SlimeBall
}

pub fn is_swallowable_item(i: &CubeItem) -> (r: bool)
    ensures
        r == spec_is_swallowable(*i),
{
    i.swallowable_tag || i.archetype.is_some()
}

/// The block a cube carries: the item and its archetype.
#[derive(Clone, Copy, Debug, PartialEq, Eq, Structural)]
pub struct HeldBlock {
    pub item: Item,
    pub archetype: Option<Archetype>,
}

/// What swallowing a block changed.
#[derive(Clone, Copy, Debug, PartialEq, Eq, Structural)]
pub struct Absorbed {
    /// The block held before, dropped to the ground.
    pub ejected: Option<HeldBlock>,
    /// The cube's armour is set high (12) or back to none.
    pub high_armor: bool,
}

/// What a player's use of an item on a cube did.
#[derive(Clone, Copy, Debug, PartialEq, Eq, Structural)]
pub enum CubeInteraction {
    /// Nothing happened.
    Pass,
    /// A baby ate; it grew up if `grew`.  One item is used unless creative.
    Fed { grew: bool },
    /// The held block was sheared off and dropped.  One item is used unless
    /// creative.
    Sheared { dropped: HeldBlock },
    /// The explosive cube was lit.  One item is used unless creative.
    Primed,
    /// The item was swallowed.  One item is used unless creative.
    Swallowed(Absorbed),
    /// The cube was scooped into the bucket (outside creative the bucket
    /// becomes a sulfur cube bucket) and leaves the world.
    Bucketed,
    /// The leash logic of mobs decides.
    Leash,
}

/// What a tick of the cube's own timers calls for.
#[derive(Clone, Copy, Debug, PartialEq, Eq, Structural)]
pub enum CubeTick {
    /// The fuse burnt out: the cube explodes and is removed.
    Explode,
    /// The cube was lit by redstone power.
    Lit,
    /// A baby grew up.
    GrewUp,
    /// Nothing happened.
    Quiet,
}

/// How the cube takes damage.
#[derive(Clone, Copy, Debug, PartialEq, Eq, Structural)]
pub enum CubeDamage {
    /// A lit cube takes no damage.
    Ignored,
    /// A cube holding a block is knocked back instead of hurt.
    KnockedBack,
    /// The damage goes through.
    Hurt,
}

/// The state of a sulfur cube that its rules read and write.
#[derive(Clone, Copy, Debug, PartialEq, Eq, Structural)]
pub struct SulfurCubeEntity {
    /// The slime size: 1 for a baby, 2 for an adult.
    pub size: i32,
    pub age: i32,
    pub max_health: i32,
    pub held: Option<HeldBlock>,
    pub is_primed: bool,
    pub fuse: i32,
    pub pickup_timer: i32,
    pub push_sound_cooldown: i32,
    pub from_bucket: bool,
    pub high_armor: bool,
}

/// The age a baby has after eating: a current age of at least zero counts as
/// -24000; it moves up by 20 ticks per 200 of its distance from zero (rounded
/// to nearest, halves up), but at least 2400, and no further than 0.  The
/// quotient is taken exactly here; the game takes it in single-precision
/// floats, which agree with it for every age down to -2^24.
pub open spec fn spec_fed_age(age: int) -> int {
    let current = if age >= 0 {
        -24000
    } else {
        age
    };
    let step = ((-current + 100) / 200) * 20;
    let delta = if step < 2400 {
        2400
    } else {
        step
    };
    if current + delta > 0 {
        0
    } else {
        current + delta
    }
}

pub open spec fn spec_has_fuse(c: SulfurCubeEntity) -> bool {
    c.held matches Some(h) && h.archetype matches Some(a) && spec_fuse(a) is Some
}

/// Swallowing `stack` (see `absorb_block`): what changed, and the cube after.
pub open spec fn spec_absorb(c: SulfurCubeEntity, stack: Option<CubeItem>) -> (
    Option<Absorbed>,
    SulfurCubeEntity,
) {
    match stack {
        None => (None, c),
        Some(i) => if c.size <= 1 || !spec_is_swallowable(i) || (c.held matches Some(h) && h.item
            == i.item) {
            (None, c)
        } else {
            match i.archetype {
                Some(a) => (
                    Some(Absorbed { ejected: c.held, high_armor: a == Archetype::HighResistance }),
                    SulfurCubeEntity {
                        held: Some(HeldBlock { item: i.item, archetype: i.archetype }),
                        fuse: match spec_fuse(a) {
                            Some(f) => f,
                            None => -1i32,
                        },
                        is_primed: false,
                        high_armor: a == Archetype::HighResistance,
                        ..c
                    },
                ),
                None => (
                    Some(Absorbed { ejected: c.held, high_armor: c.high_armor }),
                    SulfurCubeEntity {
                        held: Some(HeldBlock { item: i.item, archetype: None }),
                        ..c
                    },
                ),
            }
        },
    }
}

/// A stack lying on the ground near a cube: how long before it can be picked
/// up, what it is, and how many items it holds.
#[derive(Clone, Copy, Debug, PartialEq, Eq, Structural)]
pub struct GroundStack {
    pub pickup_delay: i32,
    pub item: CubeItem,
    pub count: u8,
}

/// A cube takes from a ground stack that is free to pick up, not empty, and
/// swallowable.
pub open spec fn spec_takes(g: GroundStack) -> bool {
    g.pickup_delay <= 0 && !(g.count == 0 || g.item.item == Item::Air) && spec_is_swallowable(g.item)
}

/// The index of the first stack, from the i-th on, that a cube takes from.
pub open spec fn spec_first_pickup(ground: Seq<GroundStack>, i: int) -> Option<int>
    decreases ground.len() - i,
{
    if i < 0 || i >= ground.len() {
        None
    } else if spec_takes(ground[i]) {
        Some(i)
    } else {
        spec_first_pickup(ground, i + 1)
    }
}

proof fn lemma_first_pickup_bounds(ground: Seq<GroundStack>, i: int)
    ensures
        spec_first_pickup(ground, i) matches Some(k) ==> i <= k < ground.len(),
    decreases ground.len() - i,
{
    if 0 <= i < ground.len() && !spec_takes(ground[i]) {
        lemma_first_pickup_bounds(ground, i + 1);
    }
}

/// The cube after loading saved fields; a missing one keeps its value.
pub open spec fn spec_read_saved(
    c: SulfurCubeEntity,
    fuse: Option<i32>,
    primed: Option<bool>,
    pickup_timer: Option<i32>,
    from_bucket: Option<bool>,
    held: Option<HeldBlock>,
) -> SulfurCubeEntity {
    SulfurCubeEntity {
        fuse: match fuse {
            Some(v) => v,
            None => c.fuse,
        },
        is_primed: match primed {
            Some(v) => v,
            None => c.is_primed,
        },
        pickup_timer: match pickup_timer {
            Some(v) => v,
            None => c.pickup_timer,
        },
        from_bucket: match from_bucket {
            Some(v) => v,
            None => c.from_bucket,
        },
        held: match held {
            Some(h) => Some(h),
            None => c.held,
        },
        ..c
    }
}

/// What a cube saves loads back into any cube: its fuse, lit flag, pickup
/// timer, bucket flag, and the block it holds (a cube holding nothing saves
/// none, and the loading cube keeps its own).
pub proof fn law_cube_save_round_trip(c: SulfurCubeEntity, other: SulfurCubeEntity)
    ensures
        ({
            let loaded = spec_read_saved(other, Some(c.fuse), Some(c.is_primed), Some(c.pickup_timer), Some(c.from_bucket), c.held);
            &&& (loaded.fuse, loaded.is_primed, loaded.pickup_timer, loaded.from_bucket) == (c.fuse, c.is_primed, c.pickup_timer, c.from_bucket)
            &&& c.held is Some ==> loaded.held == c.held
        }),
{
}

impl SulfurCubeEntity {
    /// A cube spawned with slime size `raw_size`, kept within 1..=2; a baby
    /// starts at age -24000.  Health is 4 per size.
    pub fn new(raw_size: i32) -> (r: SulfurCubeEntity)
        ensures
            r.size == if raw_size < 1 {
                1
            } else if raw_size > 2 {
                2
            } else {
                raw_size
            },
            r.age == if r.size <= 1 {
                -24000
            } else {
                0
            },
            r.max_health == 4 * r.size,
            r.held is None,
            !r.is_primed,
            r.fuse == -1,
            r.pickup_timer == 0,
            r.push_sound_cooldown == 0,
            !r.from_bucket,
            !r.high_armor,
    {
        let size = if raw_size < 1 {
            1
        } else if raw_size > 2 {
            2
        } else {
            raw_size
        };
        SulfurCubeEntity {
            size,
            age: if size <= 1 {
                -24000
            } else {
                0
            },
            max_health: 4 * size,
            held: None,
            is_primed: false,
            fuse: -1,
            pickup_timer: 0,
            push_sound_cooldown: 0,
            from_bucket: false,
            high_armor: false,
        }
    }

    pub fn is_baby(&self) -> (r: bool)
        ensures
            r == (self.size <= 1),
    {
        self.size <= 1
    }

    /// Grows to size 2 with 8 health.
    pub fn grow_up(&mut self)
        ensures
            *final(self) == (SulfurCubeEntity { size: 2, max_health: 8, ..*old(self) }),
    {
        self.size = 2;
        self.max_health = 8;
    }

    pub fn has_body_item(&self) -> (r: bool)
        ensures
            r == self.held is Some,
    {
        self.held.is_some()
    }

    pub fn get_current_archetype(&self) -> (r: Option<Archetype>)
        ensures
            r == match self.held {
                Some(h) => h.archetype,
                None => None,
            },
    {
        match self.held {
            Some(h) => h.archetype,
            None => None,
        }
    }

    /// The damage the cube deals to what touches it, in health points (of
    /// the hot-cube damage type): one point from a cube holding a hot block,
    /// none otherwise.  The caller deals it to the one touching.
    pub fn apply_contact_damage(&self) -> (r: Option<i32>)
        ensures
            r == if self.held_archetype() == Some(Archetype::Hot) {
                Some(1i32)
            } else {
                None
            },
    {
        match self.get_current_archetype() {
            Some(Archetype::Hot) => Some(1),
            _ => None,
        }
    }

    pub open spec fn held_archetype(&self) -> Option<Archetype> {
        match self.held {
            Some(h) => h.archetype,
            None => None,
        }
    }

    fn has_fuse(&self) -> (r: bool)
        ensures
            r == spec_has_fuse(*self),
    {
        match self.held {
            Some(h) => match h.archetype {
                Some(a) => a.fuse().is_some(),
                None => false,
            },
            None => false,
        }
    }

    /// Swallows one of `stack` (`None` for an empty stack): refused for a
    /// baby, an item that cannot be swallowed, or the item already held.  The
    /// block held before is dropped.  The fuse is set from the new archetype
    /// (-1 without one), the cube is not lit, and its armour is high only for
    /// the high-resistance archetype.
    pub fn absorb_block(&mut self, stack: Option<CubeItem>) -> (r: Option<Absorbed>)
        ensures
            (r, *final(self)) == spec_absorb(*old(self), stack),
    {
        let i = match stack {
            None => return None,
            Some(i) => i,
        };
        if self.is_baby() || !is_swallowable_item(&i) {
            return None;
        }
        if let Some(h) = self.held {
            if h.item == i.item {
                return None;
            }
        }
        let ejected = self.held;
        self.held = Some(HeldBlock { item: i.item, archetype: i.archetype });
        if let Some(a) = i.archetype {
            self.fuse = match a.fuse() {
                Some(f) => f,
                None => -1,
            };
            self.is_primed = false;
            self.high_armor = a == Archetype::HighResistance;
        }
        Some(Absorbed { ejected, high_armor: self.high_armor })
    }

    /// A cube can be sheared while it holds a block and is not lit.
    pub fn ready_for_shearing(&self) -> (r: bool)
        ensures
            r == (self.held is Some && !self.is_primed),
    {
        self.has_body_item() && !self.is_primed
    }

    /// Shears the held block off: it is dropped, the fuse is cleared, and the
    /// cube waits 100 ticks before picking up items again.
    pub fn shear_block(&mut self) -> (r: Option<HeldBlock>)
        ensures
            (old(self).held is None || old(self).is_primed) ==> r is None && *final(self)
                == *old(self),
            (old(self).held is Some && !old(self).is_primed) ==> r == old(self).held
                && *final(self) == (SulfurCubeEntity {
                held: None,
                fuse: -1i32,
                is_primed: false,
                pickup_timer: 100i32,
                ..*old(self)
            }),
    {
        if !self.ready_for_shearing() {
            return None;
        }
        let dropped = self.held;
        self.held = None;
        self.fuse = -1;
        self.is_primed = false;
        self.pickup_timer = 100;
        dropped
    }

    /// Lights the cube when it holds an explosive block and is not lit yet:
    /// the fuse is 10 + `roll` ticks when the blast is imminent, else 120.
    /// Answers whether it was lit.
    pub fn prime_with(&mut self, imminent: bool, roll: i32) -> (r: bool)
        requires
            0 <= roll < 20,
        ensures
            r == (spec_has_fuse(*old(self)) && !old(self).is_primed),
            r ==> *final(self) == (SulfurCubeEntity {
                fuse: if imminent {
                    (10 + roll) as i32
                } else {
                    120i32
                },
                is_primed: true,
                ..*old(self)
            }),
            !r ==> *final(self) == *old(self),
    {
        if self.has_fuse() && !self.is_primed {
            self.fuse = if imminent {
                10 + roll
            } else {
                120
            };
            self.is_primed = true;
            true
        } else {
            false
        }
    }

    /// Lights the cube (see `prime_with`); an imminent blast draws its extra
    /// ticks from 0..20.
    pub fn prime(&mut self, imminent: bool) -> (r: bool)
        ensures
            r == (spec_has_fuse(*old(self)) && !old(self).is_primed),
            r && !imminent ==> *final(self) == (SulfurCubeEntity {
                fuse: 120,
                is_primed: true,
                ..*old(self)
            }),
            r && imminent ==> 10 <= final(self).fuse < 30 && *final(self) == (SulfurCubeEntity {
                fuse: final(self).fuse,
                is_primed: true,
                ..*old(self)
            }),
            !r ==> *final(self) == *old(self),
    {
        if self.has_fuse() && !self.is_primed {
            let roll = if imminent {
                random_range_i32(0, 20)
            } else {
                0
            };
            self.prime_with(imminent, roll)
        } else {
            false
        }
    }

    /// Whether touching the cube burns: it holds a hot block.
    pub fn applies_contact_damage(&self) -> (r: bool)
        ensures
            r == (self.held matches Some(h) && h.archetype == Some(Archetype::Hot)),
    {
        match self.get_current_archetype() {
            Some(a) => a.has_contact_damage(),
            None => false,
        }
    }

    /// A grown cube with empty insides picks items up once its pickup timer
    /// has run out.
    pub fn can_pick_up_items(&self) -> (r: bool)
        ensures
            r == (self.size > 1 && self.held is None && self.pickup_timer <= 0),
    {
        !self.is_baby() && !self.has_body_item() && self.pickup_timer <= 0
    }

    /// A tick of the cube's own clocks: the pickup and push-sound timers run
    /// down; a lit cube burns its fuse and explodes when the fuse was at zero
    /// or below; an unlit explosive cube is lit when redstone powers it or the
    /// block below; a baby ages and grows up at age 0.
    pub fn tick_timers(&mut self, powered: bool) -> (r: CubeTick)
        requires
            old(self).fuse > i32::MIN,
            old(self).age < i32::MAX,
        ensures
            final(self).pickup_timer == if old(self).pickup_timer > 0 {
                old(self).pickup_timer - 1
            } else {
                old(self).pickup_timer as int
            },
            final(self).push_sound_cooldown == if old(self).push_sound_cooldown > 0 {
                old(self).push_sound_cooldown - 1
            } else {
                old(self).push_sound_cooldown as int
            },
            final(self).held == old(self).held,
            final(self).from_bucket == old(self).from_bucket,
            final(self).high_armor == old(self).high_armor,
            old(self).is_primed ==> final(self).fuse == old(self).fuse - 1 && final(self).is_primed,
            old(self).is_primed && old(self).fuse <= 0 ==> r == CubeTick::Explode
                && final(self).age == old(self).age && final(self).size == old(self).size
                && final(self).max_health == old(self).max_health,
            !old(self).is_primed ==> final(self).is_primed == (spec_has_fuse(*old(self)) && powered)
                && final(self).fuse == if spec_has_fuse(*old(self)) && powered {
                120
            } else {
                old(self).fuse as int
            },
            !old(self).is_primed && spec_has_fuse(*old(self)) && powered ==> r == CubeTick::Lit,
            !(old(self).is_primed && old(self).fuse <= 0) ==> final(self).age == if old(self).age
                < 0 {
                old(self).age + 1
            } else {
                old(self).age as int
            },
            !(old(self).is_primed && old(self).fuse <= 0) && old(self).age == -1 ==> final(self).size == 2 && final(self).max_health == 8,
            !(old(self).is_primed && old(self).fuse <= 0) && old(self).age != -1 ==> final(self).size == old(self).size && final(self).max_health == old(self).max_health,
            !(old(self).is_primed && old(self).fuse <= 0) && !(!old(self).is_primed
                && spec_has_fuse(*old(self)) && powered) ==> r == if old(self).age == -1 {
                CubeTick::GrewUp
            } else {
                CubeTick::Quiet
            },
    {
        if self.pickup_timer > 0 {
            self.pickup_timer = self.pickup_timer - 1;
        }
        if self.push_sound_cooldown > 0 {
            self.push_sound_cooldown = self.push_sound_cooldown - 1;
        }
        let mut event = CubeTick::Quiet;
        if self.is_primed {
            let current = self.fuse;
            self.fuse = current - 1;
            if current <= 0 {
                return CubeTick::Explode;
            }
        } else if powered && self.has_fuse() {
            self.prime_with(false, 0);
            event = CubeTick::Lit;
        }
        if self.age < 0 {
            self.age = self.age + 1;
            if self.age >= 0 {
                self.grow_up();
                if event == CubeTick::Quiet {
                    event = CubeTick::GrewUp;
                }
            }
        }
        event
    }

    /// Damage: none while lit.  A cube holding a block is lit by fire (fuse
    /// 120) or an explosion (imminent), and takes no damage but a knockback,
    /// except from suffocation, cramming, lava, fire, the void and kill
    /// commands (`bypasses`).
    pub fn pre_damage(&mut self, is_fire: bool, is_explosion: bool, bypasses: bool) -> (r: CubeDamage)
        ensures
            old(self).is_primed ==> r == CubeDamage::Ignored && *final(self) == *old(self),
            !old(self).is_primed && old(self).held is None ==> r == CubeDamage::Hurt
                && *final(self) == *old(self),
            !old(self).is_primed && old(self).held is Some ==> r == if bypasses {
                CubeDamage::Hurt
            } else {
                CubeDamage::KnockedBack
            },
            !old(self).is_primed && old(self).held is Some && spec_has_fuse(*old(self)) && is_fire
                ==> *final(self) == (SulfurCubeEntity {
                fuse: 120,
                is_primed: true,
                ..*old(self)
            }),
            !old(self).is_primed && old(self).held is Some && spec_has_fuse(*old(self)) && !is_fire
                && is_explosion ==> 10 <= final(self).fuse < 30 && *final(self) == (
            SulfurCubeEntity { fuse: final(self).fuse, is_primed: true, ..*old(self) }),
            !old(self).is_primed && old(self).held is Some && !(spec_has_fuse(*old(self)) && (
            is_fire || is_explosion)) ==> *final(self) == *old(self),
    {
        if self.is_primed {
            return CubeDamage::Ignored;
        }
        if !self.has_body_item() {
            return CubeDamage::Hurt;
        }
        if self.has_fuse() {
            if is_fire {
                self.prime(false);
            } else if is_explosion {
                self.prime(true);
            }
        }
        if bypasses {
            CubeDamage::Hurt
        } else {
            CubeDamage::KnockedBack
        }
    }

    /// A player's use of `stack` (`None` for an empty hand) on the cube, in
    /// this order: a baby only eats food; a lit cube does nothing; shears take
    /// the held block off; flint and steel or a fire charge light an explosive
    /// cube; a swallowable item is swallowed when it can be; a bucket scoops
    /// the cube up; a cube holding a block may be leashed.
    pub fn mob_interact(&mut self, stack: Option<CubeItem>) -> (r: CubeInteraction)
        requires
            old(self).age > i32::MIN,
        ensures
            ({
                let c = *old(self);
                if c.size <= 1 {
                    match stack {
                        Some(i) => if spec_is_food(i) {
                            let age = spec_fed_age(c.age as int);
                            &&& r == CubeInteraction::Fed { grew: age >= 0 }
                            &&& final(self).age == age
                            &&& *final(self) == if age >= 0 {
                                SulfurCubeEntity { age: age as i32, size: 2, max_health: 8, ..c }
                            } else {
                                SulfurCubeEntity { age: age as i32, ..c }
                            }
                        } else {
                            r == CubeInteraction::Pass && *final(self) == c
                        },
                        None => r == CubeInteraction::Pass && *final(self) == c,
                    }
                } else if c.is_primed {
                    r == CubeInteraction::Pass && *final(self) == c
                } else if (stack matches Some(i) && i.item == Item::Shears) && c.held is Some {
                    r == CubeInteraction::Sheared { dropped: c.held->0 } && *final(self) == (
                    SulfurCubeEntity { held: None, fuse: -1i32, is_primed: false, pickup_timer: 100i32, ..c })
                } else if spec_has_fuse(c) && (stack matches Some(i) && (i.item == Item::FlintAndSteel
                    || i.item == Item::FireCharge)) {
                    r == CubeInteraction::Primed && *final(self) == (SulfurCubeEntity {
                        fuse: 120,
                        is_primed: true,
                        ..c
                    })
                } else if (stack matches Some(i) && spec_is_swallowable(i) && !(c.held matches Some(
                    h,
                ) && h.item == i.item)) {
                    r == CubeInteraction::Swallowed(spec_absorb(c, stack).0->0) && *final(self)
                        == spec_absorb(c, stack).1
                } else if stack matches Some(i) && i.item == Item::Bucket {
                    r == CubeInteraction::Bucketed && *final(self) == c
                } else if c.held is Some {
                    r == CubeInteraction::Leash && *final(self) == c
                } else {
                    r == CubeInteraction::Pass && *final(self) == c
                }
            }),
    {
        if self.is_baby() {
            if let Some(i) = stack {
                if is_food_item(&i) {
                    let current: i32 = if self.age >= 0 {
                        -24000
                    } else {
                        self.age
                    };
                    let distance: i64 = -(current as i64);
                    let step: i64 = ((distance + 100) / 200) * 20;
                    let delta: i32 = if step < 2400 {
                        2400
                    } else {
                        step as i32
                    };
                    let new_age: i32 = if current > -delta {
                        0
                    } else {
                        current + delta
                    };
                    self.age = new_age;
                    let grew = new_age >= 0;
                    if grew {
                        self.grow_up();
                    }
                    return CubeInteraction::Fed { grew };
                }
            }
            return CubeInteraction::Pass;
        }
        if self.is_primed {
            return CubeInteraction::Pass;
        }
        let i = match stack {
            None => {
                return if self.has_body_item() {
                    CubeInteraction::Leash
                } else {
                    CubeInteraction::Pass
                };
            },
            Some(i) => i,
        };
        if i.item == Item::Shears && self.has_body_item() {
            match self.shear_block() {
                Some(dropped) => return CubeInteraction::Sheared { dropped },
                None => return CubeInteraction::Pass,
            }
        }
        if self.has_fuse() && (i.item == Item::FlintAndSteel || i.item == Item::FireCharge) {
            self.prime(false);
            return CubeInteraction::Primed;
        }
        if is_swallowable_item(&i) {
            if let Some(a) = self.absorb_block(Some(i)) {
                return CubeInteraction::Swallowed(a);
            }
        }
        if i.item == Item::Bucket {
            return CubeInteraction::Bucketed;
        }
        if self.has_body_item() {
            return CubeInteraction::Leash;
        }
        CubeInteraction::Pass
    }

    /// A cube that can pick items up (see `can_pick_up_items`) swallows one
    /// item of the first stack around it that it takes from (see
    /// `spec_takes`); answers that stack's index (one item leaves it).
    pub fn check_ground_item_pickup(&mut self, ground: &Vec<GroundStack>) -> (r: Option<usize>)
        ensures
            !(old(self).size > 1 && old(self).held is None && old(self).pickup_timer <= 0) ==> r is None
                && *final(self) == *old(self),
            (old(self).size > 1 && old(self).held is None && old(self).pickup_timer <= 0) ==> match spec_first_pickup(ground@, 0) {
                Some(k) => r == Some(k as usize) && *final(self) == spec_absorb(*old(self), Some(ground@[k].item)).1,
                None => r is None && *final(self) == *old(self),
            },
    {
        if !self.can_pick_up_items() {
            return None;
        }
        let ghost s0 = *self;
        let mut i: usize = 0;
        while i < ground.len()
            invariant
                0 <= i <= ground@.len(),
                *self == s0,
                s0 == *old(self),
                s0.size > 1 && s0.held is None && s0.pickup_timer <= 0,
                spec_first_pickup(ground@, 0) == spec_first_pickup(ground@, i as int),
            decreases ground@.len() - i,
        {
            let g = ground[i];
            if g.pickup_delay <= 0 && !(g.count == 0 || g.item.item == Item::Air) && is_swallowable_item(&g.item) {
                proof {
                    lemma_first_pickup_bounds(ground@, 0);
                }
                self.absorb_block(Some(g.item));
                return Some(i);
            }
            i += 1;
        }
        None
    }

    /// A player pushes the cube while it holds a block: the push sound plays
    /// when its cooldown has run out and the block has an archetype, and the
    /// cooldown restarts at that archetype's length.
    pub fn push_sound(&mut self) -> (r: bool)
        ensures
            r == (old(self).held matches Some(h) && h.archetype is Some
                && old(self).push_sound_cooldown <= 0),
            r ==> *final(self) == (SulfurCubeEntity {
                push_sound_cooldown: spec_push_cooldown_ticks(old(self).held->0.archetype->0),
                ..*old(self)
            }),
            !r ==> *final(self) == *old(self),
    {
        match self.get_current_archetype() {
            Some(a) => if self.push_sound_cooldown <= 0 {
                self.push_sound_cooldown = a.push_cooldown_ticks();
                true
            } else {
                false
            },
            None => false,
        }
    }

    /// On death (once): the held block is dropped, and an adult that was not
    /// lit splits into two babies.  Answers the dropped block and the number of
    /// babies.
    pub fn on_death(&mut self) -> (r: (Option<HeldBlock>, u8))
        ensures
            r.0 == old(self).held,
            r.1 == if old(self).size > 1 && !old(self).is_primed {
                2u8
            } else {
                0u8
            },
            *final(self) == (SulfurCubeEntity { held: None, ..*old(self) }),
    {
        let dropped = self.held;
        self.held = None;
        let babies = if !self.is_baby() && !self.is_primed {
            2
        } else {
            0
        };
        (dropped, babies)
    }

    /// The saved fields: fuse, lit, pickup timer, from a bucket.
    pub fn saved(&self) -> (r: (i32, bool, i32, bool))
        ensures
            r == (self.fuse, self.is_primed, self.pickup_timer, self.from_bucket),
    {
        (self.fuse, self.is_primed, self.pickup_timer, self.from_bucket)
    }

    /// Loads saved fields; a missing one keeps its value.
    pub fn read_saved(
        &mut self,
        fuse: Option<i32>,
        primed: Option<bool>,
        pickup_timer: Option<i32>,
        from_bucket: Option<bool>,
        held: Option<HeldBlock>,
    )
        ensures
            *final(self) == spec_read_saved(*old(self), fuse, primed, pickup_timer, from_bucket, held),
    {
        if let Some(v) = fuse {
            self.fuse = v;
        }
        if let Some(v) = primed {
            self.is_primed = v;
        }
        if let Some(v) = pickup_timer {
            self.pickup_timer = v;
        }
        if let Some(v) = from_bucket {
            self.from_bucket = v;
        }
        if let Some(h) = held {
            self.held = Some(h);
        }
    }
}

} // verus!
