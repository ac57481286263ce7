use vstd::prelude::*;

use crate::geometry::BlockPos;
use crate::item::Item;

verus! {

/// A stack of items: the item and how many.
#[derive(Clone, Copy, Debug, PartialEq, Eq, Structural)]
pub struct Stack {
    pub item: Item,
    pub count: u8,
}

/// The empty stack.
pub open spec fn spec_empty_stack() -> Stack {
    Stack { item: Item::Air, count: 0 }
}

/// A stack is empty when it holds nothing or only air.
pub open spec fn spec_is_empty(s: Stack) -> bool {
    s.count == 0 || s.item == Item::Air
}

/// Empty stacks all read as the one empty stack.
pub open spec fn normalized(s: Stack) -> Stack {
    if spec_is_empty(s) {
        spec_empty_stack()
    } else {
        s
    }
}

impl Stack {
    pub fn empty() -> (r: Stack)
        ensures
            r == spec_empty_stack(),
    {
        Stack { item: Item::Air, count: 0 }
    }

    pub fn is_empty(&self) -> (r: bool)
        ensures
            r == spec_is_empty(*self),
    {
        self.count == 0 || self.item == Item::Air
    }
}

/// The number of slots of a shulker box.
pub const INVENTORY_SIZE: usize = 27;

/// The block event that animates the lid.
pub const OPEN_ANIMATION_EVENT_TYPE: u8 = 1;

/// The id saved with the box's items.
pub const SHULKER_BOX_ID: &'static str = "minecraft:shulker_box";

/// A shulker box placed in the world: 27 slots that it keeps when broken.
pub struct ShulkerBoxBlockEntity {
    pub position: BlockPos,
    pub items: Vec<Stack>,
    pub dirty: bool,
}

/// The non-empty slots among the first `n`, with their slot numbers, in
/// slot order.
pub open spec fn spec_container(items: Seq<Stack>, n: int) -> Seq<(u8, Stack)>
    decreases n,
{
    if n <= 0 {
        Seq::empty()
    } else if spec_is_empty(items[n - 1]) {
        spec_container(items, n - 1)
    } else {
        spec_container(items, n - 1).push(((n - 1) as u8, items[n - 1]))
    }
}

/// The slots after loading the first `n` entries of `container` into an
/// empty box: each entry with a slot below 27 puts its stack there, later ones
/// winning.
pub open spec fn spec_loaded(container: Seq<(u8, Stack)>, n: int) -> Seq<Stack>
    decreases n,
{
    if n <= 0 {
        Seq::new(27, |i: int| spec_empty_stack())
    } else {
        let prev = spec_loaded(container, n - 1);
        let (slot, stack) = container[n - 1];
        if (slot as int) < 27 {
            prev.update(slot as int, stack)
        } else {
            prev
        }
    }
}

/// What a stack split takes: `amount` or the whole stack when it has fewer.
pub open spec fn taken(count: u8, amount: u8) -> u8 {
    if amount < count {
        amount
    } else {
        count
    }
}

impl ShulkerBoxBlockEntity {
    /// The box has its 27 slots.
    pub open spec fn wf(&self) -> bool {
        self.items@.len() == 27
    }

    /// An empty box at `position`.
    pub fn new(position: BlockPos) -> (r: ShulkerBoxBlockEntity)
        ensures
            r.wf(),
            r.slots().len() == 27,
            r.position == position,
            !r.dirty,
            forall|i: int| 0 <= i < 27 ==> #[trigger] r.items@[i] == spec_empty_stack(),
    {
        let mut items: Vec<Stack> = Vec::new();
        let mut i: usize = 0;
        while i < INVENTORY_SIZE
            invariant
                0 <= i <= 27,
                items@.len() == i,
                forall|j: int| 0 <= j < i ==> #[trigger] items@[j] == spec_empty_stack(),
            decreases 27 - i,
        {
            items.push(Stack::empty());
            i += 1;
        }
        ShulkerBoxBlockEntity { position, items, dirty: false }
    }

    /// The box's slots as plain values.
    pub open spec fn slots(&self) -> Seq<Stack> {
        self.items@
    }

    /// The open sound plays for a positive viewer count, else the close sound;
    /// answers whether it is the open sound.
    pub fn play_sound_is_open(viewer_count: i32) -> (r: bool)
        ensures
            r == (viewer_count > 0),
    {
        viewer_count > 0
    }

    /// The lid animation event carries the new viewer count.
    pub fn on_viewer_count_update(new_count: u16) -> (r: (u8, u8))
        ensures
            r == (OPEN_ANIMATION_EVENT_TYPE, new_count as u8),
    {
        (OPEN_ANIMATION_EVENT_TYPE, new_count as u8)
    }

    /// The non-empty slots with their slot numbers, in slot order.
    pub fn get_container_component(&self) -> (r: Vec<(u8, Stack)>)
        requires
            self.wf(),
        ensures
            r@ == spec_container(self.slots(), 27),
    {
        let mut r: Vec<(u8, Stack)> = Vec::new();
        let mut i: usize = 0;
        while i < INVENTORY_SIZE
            invariant
                0 <= i <= 27,
                self.items@.len() == 27,
                r@ == spec_container(self.items@, i as int),
            decreases 27 - i,
        {
            let s = self.items[i];
            if !s.is_empty() {
                r.push((i as u8, s));
            }
            i += 1;
        }
        r
    }

    /// Empties every slot, then puts each listed stack into its slot (slots
    /// past 26 are ignored).
    pub fn load_from_container_component(&mut self, container: &Vec<(u8, Stack)>)
        requires
            old(self).wf(),
        ensures
            final(self).wf(),
            final(self).slots() == spec_loaded(container@, container@.len() as int),
            final(self).dirty,
            final(self).position == old(self).position,
    {
        self.clear();
        let ghost pos = self.position;
        let mut k: usize = 0;
        while k < container.len()
            invariant
                0 <= k <= container@.len(),
                self.position == pos,
                self.items@.len() == 27,
                self.items@ == spec_loaded(container@, k as int),
                self.dirty,
            decreases container@.len() - k,
        {
            let (slot, stack) = container[k];
            if (slot as usize) < INVENTORY_SIZE {
                self.items.set(slot as usize, stack);
            }
            k += 1;
        }
    }

    /// Loads the box from a dropped box item: its container list when it has
    /// one, else the item list of its saved block entity data; nothing without
    /// either.
    pub fn load_from_item_stack(
        &mut self,
        container: Option<&Vec<(u8, Stack)>>,
        block_entity_items: Option<&Vec<(u8, Stack)>>,
    )
        requires
            old(self).wf(),
        ensures
            final(self).wf(),
            final(self).position == old(self).position,
            container is Some ==> final(self).slots() == spec_loaded(
                container->0@,
                container->0@.len() as int,
            ),
            container is None && block_entity_items is Some ==> final(self).slots() == spec_loaded(
                block_entity_items->0@,
                block_entity_items->0@.len() as int,
            ),
            container is None && block_entity_items is None ==> final(self).slots()
                == old(self).slots() && final(self).dirty == old(self).dirty,
            container is Some || block_entity_items is Some ==> final(self).dirty,
    {
        match container {
            Some(c) => self.load_from_container_component(c),
            None => match block_entity_items {
                Some(c) => self.load_from_container_component(c),
                None => {},
            },
        }
    }

    /// What a broken box gives its item: nothing when empty, else the
    /// container list and the id to save with the items.
    pub fn apply_to_item_stack(&self) -> (r: Option<(Vec<(u8, Stack)>, &'static str)>)
        requires
            self.wf(),
        ensures
            (forall|i: int| 0 <= i < 27 ==> #[trigger] spec_is_empty(self.slots()[i])) ==> r is None,
            !(forall|i: int| 0 <= i < 27 ==> #[trigger] spec_is_empty(self.slots()[i])) ==> r
                is Some && (r->0).0@ == spec_container(self.slots(), 27) && (r->0).1@
                == SHULKER_BOX_ID@,
    {
        if self.is_empty() {
            None
        } else {
            Some((self.get_container_component(), SHULKER_BOX_ID))
        }
    }

    /// Whether every slot is empty.
    pub fn is_empty(&self) -> (r: bool)
        requires
            self.wf(),
        ensures
            r == forall|i: int| 0 <= i < 27 ==> #[trigger] spec_is_empty(self.slots()[i]),
    {
        let mut i: usize = 0;
        while i < INVENTORY_SIZE
            invariant
                0 <= i <= 27,
                self.items@.len() == 27,
                forall|j: int| 0 <= j < i ==> #[trigger] spec_is_empty(self.items@[j]),
            decreases 27 - i,
        {
            if !self.items[i].is_empty() {
                assert(!spec_is_empty(self.slots()[i as int]));
                return false;
            }
            i += 1;
        }
        true
    }

    pub fn size(&self) -> (r: usize)
        ensures
            r == 27,
    {
        INVENTORY_SIZE
    }

    pub fn get_stack(&self, slot: usize) -> (r: Stack)
        requires
            self.wf(),
            slot < 27,
        ensures
            r == self.slots()[slot as int],
    {
        self.items[slot]
    }

    /// Takes the whole stack out of a slot.
    pub fn remove_stack(&mut self, slot: usize) -> (r: Stack)
        requires
            old(self).wf(),
            slot < 27,
        ensures
            final(self).wf(),
            r == old(self).slots()[slot as int],
            final(self).slots() == old(self).slots().update(slot as int, spec_empty_stack()),
            final(self).dirty,
            final(self).position == old(self).position,
    {
        let removed = self.items[slot];
        self.items.set(slot, Stack::empty());
        self.dirty = true;
        removed
    }

    /// Takes up to `amount` items out of a slot (nothing from an empty slot or
    /// for an amount of 0).
    pub fn remove_stack_specific(&mut self, slot: usize, amount: u8) -> (r: Stack)
        requires
            old(self).wf(),
            slot < 27,
        ensures
            final(self).wf(),
            final(self).dirty,
            final(self).position == old(self).position,
            ({
                let s = old(self).slots()[slot as int];
                if !spec_is_empty(s) && amount > 0 {
                    &&& r == (Stack { item: s.item, count: taken(s.count, amount) })
                    &&& final(self).slots() == old(self).slots().update(
                        slot as int,
                        Stack { item: s.item, count: (s.count - taken(s.count, amount)) as u8 },
                    )
                } else {
                    r == spec_empty_stack() && final(self).slots() == old(self).slots()
                }
            }),
    {
        let s = self.items[slot];
        let r = if !s.is_empty() && amount > 0 {
            let n = if amount < s.count {
                amount
            } else {
                s.count
            };
            self.items.set(slot, Stack { item: s.item, count: s.count - n });
            Stack { item: s.item, count: n }
        } else {
            Stack::empty()
        };
        self.dirty = true;
        r
    }

    pub fn set_stack(&mut self, slot: usize, stack: Stack)
        requires
            old(self).wf(),
            slot < 27,
        ensures
            final(self).wf(),
            final(self).slots() == old(self).slots().update(slot as int, stack),
            final(self).dirty,
            final(self).position == old(self).position,
    {
        self.items.set(slot, stack);
        self.dirty = true;
    }

    /// Empties every slot.
    pub fn clear(&mut self)
        requires
            old(self).wf(),
        ensures
            final(self).wf(),
            final(self).slots() == Seq::new(27, |i: int| spec_empty_stack()),
            final(self).dirty,
            final(self).position == old(self).position,
    {
        let ghost pos = self.position;
        let mut i: usize = 0;
        while i < INVENTORY_SIZE
            invariant
                0 <= i <= 27,
                self.position == pos,
                self.items@.len() == 27,
                forall|j: int| 0 <= j < i ==> #[trigger] self.items@[j] == spec_empty_stack(),
            decreases 27 - i,
        {
            self.items.set(i, Stack::empty());
            i += 1;
        }
        assert(self.items@ =~= Seq::new(27, |i: int| spec_empty_stack()));
        self.dirty = true;
    }

    pub fn is_dirty(&self) -> (r: bool)
        ensures
            r == self.dirty,
    {
        self.dirty
    }

    pub fn clear_dirty(&mut self)
        ensures
            !final(self).dirty,
            final(self).items@ == old(self).items@,
            final(self).position == old(self).position,
    {
        self.dirty = false;
    }
}

/// Every slot of the container list lies below `n`, in increasing order.
proof fn lemma_container_slots(items: Seq<Stack>, n: int)
    requires
        0 <= n <= 27,
    ensures
        forall|k: int|
            0 <= k < spec_container(items, n).len() ==> (#[trigger] spec_container(items, n)[k]).0
                < n,
        forall|j: int, k: int|
            0 <= j < k < spec_container(items, n).len() ==> spec_container(items, n)[j].0
                < spec_container(items, n)[k].0,
        forall|k: int|
            0 <= k < spec_container(items, n).len() ==> (#[trigger] spec_container(items, n)[k]).1
                == items[spec_container(items, n)[k].0 as int] && !spec_is_empty(
                spec_container(items, n)[k].1,
            ),
    decreases n,
{
    if n > 0 {
        lemma_container_slots(items, n - 1);
        let p = spec_container(items, n - 1);
        if !spec_is_empty(items[n - 1]) {
            let c = p.push(((n - 1) as u8, items[n - 1]));
            assert(spec_container(items, n) == c);
            assert forall|k: int| 0 <= k < c.len() implies (#[trigger] c[k]).0 < n by {
                if k < p.len() {
                    assert(c[k] == p[k]);
                }
            }
            assert forall|j: int, k: int| 0 <= j < k < c.len() implies c[j].0 < c[k].0 by {
                assert(c[j] == p[j]);
                if k < p.len() {
                    assert(c[k] == p[k]);
                }
            }
            assert forall|k: int| 0 <= k < c.len() implies (#[trigger] c[k]).1 == items[c[k].0 as int]
                && !spec_is_empty(c[k].1) by {
                if k < p.len() {
                    assert(c[k] == p[k]);
                }
            }
        }
    }
}

/// Loading a container list whose slots lie below `n` and increase gives
/// each listed slot its stack and leaves the others empty.
proof fn lemma_load_container(items: Seq<Stack>, n: int, m: int)
    requires
        0 <= n <= 27,
        0 <= m <= spec_container(items, n).len(),
    ensures
        forall|i: int|
            0 <= i < 27 ==> #[trigger] spec_loaded(spec_container(items, n), m)[i] == if exists|
                k: int,
            | 0 <= k < m && spec_container(items, n)[k].0 == i {
                items[i]
            } else {
                spec_empty_stack()
            },
        spec_loaded(spec_container(items, n), m).len() == 27,
    decreases m,
{
    lemma_container_slots(items, n);
    let c = spec_container(items, n);
    if m > 0 {
        lemma_load_container(items, n, m - 1);
        assert forall|i: int| 0 <= i < 27 implies #[trigger] spec_loaded(c, m)[i] == if exists|
            k: int,
        | 0 <= k < m && c[k].0 == i {
            items[i]
        } else {
            spec_empty_stack()
        } by {
            if c[m - 1].0 == i {
                assert(c[m - 1].1 == items[c[m - 1].0 as int]);
            } else {
                if exists|k: int| 0 <= k < m && c[k].0 == i {
                    let k = choose|k: int| 0 <= k < m && c[k].0 == i;
                    assert(k < m - 1);
                }
            }
        }
    }
}

/// A slot is listed in the container exactly when it is not empty.
proof fn lemma_container_lists_nonempty(items: Seq<Stack>, n: int, i: int)
    requires
        0 <= n <= 27,
        0 <= i < n,
    ensures
        (exists|k: int| 0 <= k < spec_container(items, n).len() && spec_container(items, n)[k].0 == i)
            == !spec_is_empty(items[i]),
    decreases n,
{
    lemma_container_slots(items, n);
    if i < n - 1 {
        lemma_container_lists_nonempty(items, n - 1, i);
        let c = spec_container(items, n);
        let p = spec_container(items, n - 1);
        if exists|k: int| 0 <= k < c.len() && c[k].0 == i {
            let k = choose|k: int| 0 <= k < c.len() && c[k].0 == i;
            if k == p.len() {
                assert(c[k].0 == n - 1);
            } else {
                assert(p[k].0 == i);
            }
        }
        if exists|k: int| 0 <= k < p.len() && p[k].0 == i {
            let k = choose|k: int| 0 <= k < p.len() && p[k].0 == i;
            assert(c[k] == p[k]);
        }
    } else {
        let c = spec_container(items, n);
        let p = spec_container(items, n - 1);
        lemma_container_slots(items, n - 1);
        if exists|k: int| 0 <= k < c.len() && c[k].0 == i {
            let k = choose|k: int| 0 <= k < c.len() && c[k].0 == i;
            if k < p.len() {
                assert(p[k].0 < n - 1);
            }
        }
        if !spec_is_empty(items[i]) {
            assert(c[p.len() as int].0 == i);
        }
    }
}

/// A box's items survive being broken and placed again: loading the container
/// list of a box gives every slot its stack back (empty slots come back as the
/// empty stack).
pub proof fn law_container_round_trip(items: Seq<Stack>)
    requires
        items.len() == 27,
    ensures
        spec_loaded(spec_container(items, 27), spec_container(items, 27).len() as int)
            =~= Seq::new(27, |i: int| normalized(items[i])),
{
    let c = spec_container(items, 27);
    lemma_load_container(items, 27, c.len() as int);
    assert forall|i: int| 0 <= i < 27 implies spec_loaded(c, c.len() as int)[i] == normalized(
        items[i],
    ) by {
        lemma_container_lists_nonempty(items, 27, i);
    }
}

} // verus!
