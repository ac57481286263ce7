use vstd::prelude::*;

use crate::geometry::{
    bounded, near, spec_axis, spec_offset, spec_opposite, Axis, BlockDirection, BlockPos,
    COORD_LIMIT,
};
use crate::world::{spec_is_air, Block, BlockState, BlockWorld, PistonBehavior};

verus! {

/// A piston moves at most this many blocks at once.
pub const MAX_MOVABLE_BLOCKS: usize = 12;

/// The piston block itself, for its movability rule.
pub struct PistonBlock;

/// Whether a piston may move a block in `state`, pushing towards `dir`.
/// `can_break` says whether a block that pistons destroy counts as movable.
pub open spec fn spec_is_movable(
    block: Block,
    state: BlockState,
    dir: BlockDirection,
    can_break: bool,
    piston_dir: BlockDirection,
) -> bool {
    if block == Block::Obsidian || block == Block::CryingObsidian || block == Block::RespawnAnchor
        || block == Block::ReinforcedDeepslate {
        false
    } else if block == Block::Piston || block == Block::StickyPiston {
        !state.extended && !state.has_block_entity
    } else if state.unbreakable {
        false
    } else {
        match state.piston_behavior {
            PistonBehavior::Block => false,
            PistonBehavior::Destroy => can_break,
            PistonBehavior::PushOnly => dir == piston_dir,
            _ => !state.has_block_entity,
        }
    }
}

pub open spec fn spec_is_sticky(b: Block) -> bool {
    b == Block::SlimeBlock || b == Block::HoneyBlock
}

pub open spec fn spec_is_stuck(b: Block, adjacent: Block) -> bool {
    if b == Block::HoneyBlock && adjacent == Block::SlimeBlock {
        false
    } else if b == Block::SlimeBlock && adjacent == Block::HoneyBlock {
        false
    } else {
        spec_is_sticky(b) || spec_is_sticky(adjacent)
    }
}

impl PistonBlock {
    pub fn is_movable(
        block: Block,
        state: BlockState,
        dir: BlockDirection,
        can_break: bool,
        piston_dir: BlockDirection,
    ) -> (r: bool)
        ensures
            r == spec_is_movable(block, state, dir, can_break, piston_dir),
    {
        if block == Block::Obsidian || block == Block::CryingObsidian || block
            == Block::RespawnAnchor || block == Block::ReinforcedDeepslate {
            return false;
        }
        if block == Block::Piston || block == Block::StickyPiston {
            if state.extended {
                return false;
            }
        } else {
            if state.unbreakable {
                return false;
            }
            match state.piston_behavior {
                PistonBehavior::Destroy => return can_break,
                PistonBehavior::Block => return false,
                PistonBehavior::PushOnly => return dir == piston_dir,
                _ => {},
            }
        }
        !state.has_block_entity
    }
}

/// Bound on how far from the piston a block touched by the handler can lie,
/// given how many blocks are listed as moved.
pub open spec fn reach(len: nat) -> int {
    2 + 14 * (len as int)
}

/// The blocks a push moves, in the order they move, and the blocks it breaks.
pub struct PushLists {
    pub moved: Seq<BlockPos>,
    pub broken: Seq<BlockPos>,
}

/// The index of the first `p` in `list` from index `i` on.
pub open spec fn first_index(list: Seq<BlockPos>, p: BlockPos, i: int) -> Option<int>
    decreases list.len() - i,
{
    if i < 0 || i >= list.len() {
        None
    } else if list[i] == p {
        Some(i)
    } else {
        first_index(list, p, i + 1)
    }
}

/// `list` with its last `j` entries moved to index `l`.
pub open spec fn moved_to(list: Seq<BlockPos>, j: int, l: int) -> Seq<BlockPos> {
    list.subrange(0, l) + list.subrange(list.len() - j, list.len() as int) + list.subrange(
        l,
        list.len() - j,
    )
}

/// The lists `after` a move when they grew from `before` within the limit,
/// else `before` (a move only ever adds to the lists).
pub open spec fn grown(before: PushLists, after: PushLists) -> PushLists {
    if before.moved.len() <= after.moved.len() <= 12 {
        after
    } else {
        before
    }
}

/// The six directions in index order.
pub open spec fn all_directions() -> Seq<BlockDirection> {
    seq![
        BlockDirection::Down,
        BlockDirection::Up,
        BlockDirection::North,
        BlockDirection::South,
        BlockDirection::West,
        BlockDirection::East,
    ]
}

/// What a push depends on: the world, the piston's position and facing,
/// whether it extends, the first block concerned and the direction of motion.
pub struct PushConfig {
    pub world: BlockWorld,
    pub origin: BlockPos,
    pub extending: bool,
    pub target: BlockPos,
    pub motion: BlockDirection,
    pub facing: BlockDirection,
}

impl PushConfig {
    pub open spec fn head_pos(&self) -> BlockPos {
        spec_offset(self.origin, self.facing, 1)
    }

    pub open spec fn is_head_or_base(&self, p: BlockPos) -> bool {
        p == self.origin || (!self.extending && p == self.head_pos())
    }

    /// The run of blocks stuck to the block at `pos`, behind it against the
    /// motion, counted from its `i`-th block: its length when it stays within
    /// the limit (`l0` blocks being listed already), `None` when it would not.
    pub open spec fn plan_sticky_run(&self, pos: BlockPos, block: Block, i: nat, l0: nat) -> Option<nat>
        decreases 12 - i,
    {
        let back = spec_opposite(self.motion);
        if !spec_is_sticky(block) {
            Some(i)
        } else {
            let bp = spec_offset(pos, back, i as int);
            let nb = self.world.get_spec(bp);
            if spec_is_air(nb) || !spec_is_stuck(block, nb.block) || !spec_is_movable(
                nb.block,
                nb,
                self.motion,
                false,
                back,
            ) || self.is_head_or_base(bp) {
                Some(i)
            } else if i + 1 + l0 > 12 {
                None
            } else {
                self.plan_sticky_run(pos, nb.block, i + 1, l0)
            }
        }
    }

    /// The lists with the run of `i` blocks ending at `pos` appended, the
    /// farthest first.
    pub open spec fn pushed_back(&self, s: PushLists, pos: BlockPos, i: nat) -> PushLists {
        PushLists {
            moved: s.moved + Seq::new(
                i,
                |t: int| spec_offset(pos, spec_opposite(self.motion), i - 1 - t),
            ),
            broken: s.broken,
        }
    }

    /// Moving the block at `pos`, dragged towards `dir`, given the lists so far:
    /// whether the push can go on, and the lists after.  A block that is air,
    /// cannot be moved, is the piston, or is listed already is left alone; else
    /// it is listed with the blocks stuck behind it, and the line in front of
    /// it is scanned (see `plan_line`).
    pub open spec fn plan_try_move(&self, s: PushLists, pos: BlockPos, dir: BlockDirection) -> (
        bool,
        PushLists,
    )
        decreases 12 - s.moved.len(), 0int, 0int,
    {
        let st = self.world.get_spec(pos);
        let l0 = s.moved.len();
        if l0 > 12 {
            (false, s)
        } else if spec_is_air(st) || !spec_is_movable(st.block, st, self.motion, false, dir)
            || self.is_head_or_base(pos) || s.moved.contains(pos) {
            (true, s)
        } else if 1 + l0 > 12 {
            (false, s)
        } else {
            match self.plan_sticky_run(pos, st.block, 1, l0) {
                None => (false, s),
                Some(i) => {
                    let s1 = self.pushed_back(s, pos, i);
                    if i < 1 || i + l0 > 12 {
                        (false, s1)
                    } else {
                        self.plan_line(s1, pos, l0, 1)
                    }
                },
            }
        }
    }

    /// The line in front of the block at `pos`, from its `k`-th block, `l0`
    /// blocks having been listed before this move: a block listed already
    /// joins the new ones with the earlier list (see `plan_reorder`); air or the
    /// retracting piston's head ends the line; a block that cannot move (or
    /// the piston) stops the push; a block that pistons destroy is broken and
    /// ends the line; past the limit the push stops; else the block is listed
    /// and the line goes on.
    pub open spec fn plan_line(&self, s: PushLists, pos: BlockPos, l0: nat, k: nat) -> (
        bool,
        PushLists,
    )
        decreases 12 - s.moved.len(), 4int, 0int,
    {
        if s.moved.len() > 12 || s.moved.len() < l0 {
            (false, s)
        } else {
            let motion = self.motion;
            let bp = spec_offset(pos, motion, k as int);
            match first_index(s.moved, bp, 0) {
                Some(l) => self.plan_reorder(s, (s.moved.len() - l0) as nat, l as nat),
                None => {
                    let st = self.world.get_spec(bp);
                    if spec_is_air(st) || (!self.extending && bp == self.head_pos()) {
                        (true, s)
                    } else if !spec_is_movable(st.block, st, motion, true, motion)
                        || self.is_head_or_base(bp) {
                        (false, s)
                    } else if st.piston_behavior == PistonBehavior::Destroy {
                        (true, PushLists { moved: s.moved, broken: s.broken.push(bp) })
                    } else if s.moved.len() >= 12 {
                        (false, s)
                    } else {
                        self.plan_line(
                            PushLists { moved: s.moved.push(bp), broken: s.broken },
                            pos,
                            l0,
                            k + 1,
                        )
                    }
                },
            }
        }
    }

    /// The `j` blocks listed last go to index `l`, where the line met a block
    /// listed before, and the blocks up to there drag what sticks to them.
    pub open spec fn plan_reorder(&self, s: PushLists, j: nat, l: nat) -> (bool, PushLists)
        decreases 12 - s.moved.len(), 3int, 0int,
    {
        if l + j > s.moved.len() || s.moved.len() > 12 {
            (false, s)
        } else {
            let s1 = PushLists { moved: moved_to(s.moved, j as int, l as int), broken: s.broken };
            self.plan_drag(s1, 0, l + j + 1)
        }
    }

    /// The listed blocks from index `m` up to `bound` in turn: each slime or
    /// honey block drags along what sticks to it (see `plan_adjacent`).
    pub open spec fn plan_drag(&self, s: PushLists, m: nat, bound: nat) -> (bool, PushLists)
        decreases 12 - s.moved.len(), 2int, bound - m,
    {
        if m >= bound || s.moved.len() > 12 {
            (true, s)
        } else {
            let p = s.moved[m as int];
            let b = self.world.get_spec(p).block;
            if spec_is_sticky(b) {
                let r = self.plan_adjacent(s, b, p, 0);
                if !r.0 {
                    (false, r.1)
                } else {
                    self.plan_drag(grown(s, r.1), m + 1, bound)
                }
            } else {
                self.plan_drag(s, m + 1, bound)
            }
        }
    }

    /// The neighbours of the sticky `block` at `pos`, across the motion, from
    /// the `t`-th of the six directions: each that sticks to it is moved along
    /// (see `plan_try_move`).
    pub open spec fn plan_adjacent(&self, s: PushLists, block: Block, pos: BlockPos, t: nat) -> (
        bool,
        PushLists,
    )
        decreases 12 - s.moved.len(), 1int, 6 - t,
    {
        if t >= 6 || s.moved.len() > 12 {
            (true, s)
        } else {
            let d = all_directions()[t as int];
            if spec_axis(d) == spec_axis(self.motion) {
                self.plan_adjacent(s, block, pos, t + 1)
            } else {
                let bp = spec_offset(pos, d, 1);
                if spec_is_stuck(self.world.get_spec(bp).block, block) {
                    let r = self.plan_try_move(s, bp, d);
                    if !r.0 {
                        (false, r.1)
                    } else {
                        self.plan_adjacent(grown(s, r.1), block, pos, t + 1)
                    }
                } else {
                    self.plan_adjacent(s, block, pos, t + 1)
                }
            }
        }
    }

    /// The outcome of a whole push: whether the piston can move, and the
    /// blocks it moves and breaks.
    pub open spec fn plan_push(&self) -> (bool, PushLists) {
        let empty = PushLists { moved: seq![], broken: seq![] };
        let st = self.world.get_spec(self.target);
        if !spec_is_movable(st.block, st, self.motion, false, self.facing) {
            if self.extending && st.piston_behavior == PistonBehavior::Destroy {
                (true, PushLists { moved: seq![], broken: seq![self.target] })
            } else {
                (false, empty)
            }
        } else {
            let r = self.plan_try_move(empty, self.target, self.motion);
            if !r.0 {
                (false, r.1)
            } else {
                self.plan_drag(r.1, 0, r.1.moved.len())
            }
        }
    }
}

/// Works out which blocks a piston moves and which it breaks when it
/// extends or, for a sticky piston, retracts.
pub struct PistonHandler<'a> {
    pub world: &'a BlockWorld,
    pub pos_from: BlockPos,
    pub extending: bool,
    pub pos_to: BlockPos,
    pub motion_direction: BlockDirection,
    pub moved_blocks: Vec<BlockPos>,
    pub broken_blocks: Vec<BlockPos>,
    pub piston_direction: BlockDirection,
}

impl<'a> PistonHandler<'a> {
    /// The state of the world at `p`, as the handler sees it.
    pub open spec fn block_at(&self, p: BlockPos) -> BlockState {
        self.world.get_spec(p)
    }

    /// The blocks listed as moved.
    pub open spec fn moved(&self) -> Seq<BlockPos> {
        self.moved_blocks@
    }

    /// The blocks listed as broken.
    pub open spec fn broken(&self) -> Seq<BlockPos> {
        self.broken_blocks@
    }

    /// The position of the piston.
    pub open spec fn origin(&self) -> BlockPos {
        self.pos_from
    }

    pub open spec fn is_extending(&self) -> bool {
        self.extending
    }

    /// The first block the move concerns.
    pub open spec fn target(&self) -> BlockPos {
        self.pos_to
    }

    /// The direction blocks travel in.
    pub open spec fn motion(&self) -> BlockDirection {
        self.motion_direction
    }

    /// The direction the piston faces.
    pub open spec fn facing(&self) -> BlockDirection {
        self.piston_direction
    }

    pub open spec fn head_pos(&self) -> BlockPos {
        spec_offset(self.origin(), self.facing(), 1)
    }

    pub open spec fn is_head_or_base(&self, p: BlockPos) -> bool {
        p == self.origin() || (!self.is_extending() && p == self.head_pos())
    }

    /// The geometry fixed when the handler was made.
    pub open spec fn config_ok(&self) -> bool {
        &&& bounded(self.origin(), COORD_LIMIT as int)
        &&& self.is_extending() ==> self.motion() == self.facing() && self.target() == spec_offset(
            self.origin(),
            self.facing(),
            1,
        )
        &&& !self.is_extending() ==> self.motion() == spec_opposite(self.facing())
            && self.target() == spec_offset(self.origin(), self.facing(), 2)
    }

    pub open spec fn moved_ok(&self, p: BlockPos) -> bool {
        &&& near(p, self.origin(), reach(self.moved().len()))
        &&& !spec_is_air(self.block_at(p))
        &&& !self.is_head_or_base(p)
    }

    pub open spec fn broken_ok(&self, p: BlockPos) -> bool {
        &&& near(p, self.origin(), reach(self.moved().len()))
        &&& self.block_at(p).piston_behavior == PistonBehavior::Destroy
    }

    /// What every handler keeps: at most twelve moved blocks, each of them a
    /// real block that is neither the piston nor its head, and only blocks
    /// that pistons destroy among the broken ones.
    pub open spec fn inv(&self) -> bool {
        &&& self.config_ok()
        &&& self.moved().len() <= MAX_MOVABLE_BLOCKS
        &&& forall|t: int|
            0 <= t < self.moved().len() ==> #[trigger] self.moved_ok(self.moved()[t])
        &&& forall|t: int|
            0 <= t < self.broken().len() ==> #[trigger] self.broken_ok(
                self.broken()[t],
            )
    }

    pub open spec fn same_config(&self, other: &PistonHandler<'a>) -> bool {
        &&& forall|p: BlockPos| self.block_at(p) == other.block_at(p)
        &&& self.origin() == other.origin()
        &&& self.is_extending() == other.is_extending()
        &&& self.target() == other.target()
        &&& self.motion() == other.motion()
        &&& self.facing() == other.facing()
    }

    /// No slime or honey block anywhere in the world the handler reads.
    pub open spec fn sticky_free(&self) -> bool {
        forall|p: BlockPos| !spec_is_sticky(#[trigger] self.block_at(p).block)
    }

    /// The `k`-th position in front of the target, along the motion.
    pub open spec fn line_pos(&self, k: int) -> BlockPos {
        spec_offset(self.target(), self.motion(), k)
    }

    /// The first `n` positions of the line.
    pub open spec fn line_prefix(&self, n: nat) -> Seq<BlockPos> {
        Seq::new(n, |t: int| self.line_pos(t))
    }

    /// Scanning the line from its `k`-th position, with `k` blocks already taken
    /// along: whether the move succeeds, how many blocks it moves, and whether
    /// it breaks the block at the line position just past the moved ones.
    pub open spec fn scan(&self, k: nat) -> (bool, nat, bool)
        decreases 12 - k,
    {
        let p = self.line_pos(k as int);
        let s = self.block_at(p);
        if spec_is_air(s) || (!self.is_extending() && p == self.head_pos()) {
            (true, k, false)
        } else if !spec_is_movable(s.block, s, self.motion(), true, self.motion())
            || self.is_head_or_base(p) {
            (false, k, false)
        } else if s.piston_behavior == PistonBehavior::Destroy {
            (true, k, true)
        } else if k >= 12 {
            (false, k, false)
        } else {
            self.scan(k + 1)
        }
    }

    /// The outcome of a whole push in a world without slime or honey blocks:
    /// success, the number of blocks moved, and whether the line position just
    /// past them is broken.
    pub open spec fn simple_push(&self) -> (bool, nat, bool) {
        let s = self.block_at(self.target());
        if !spec_is_movable(s.block, s, self.motion(), false, self.facing()) {
            if self.is_extending() && s.piston_behavior == PistonBehavior::Destroy {
                (true, 0, true)
            } else {
                (false, 0, false)
            }
        } else if spec_is_air(s) {
            (true, 0, false)
        } else {
            self.scan(1)
        }
    }

    /// The move a push starts with, in a world without slime or honey blocks,
    /// once the target passed the first movability check.
    pub open spec fn first_move(&self, pos: BlockPos, dir: BlockDirection) -> bool {
        let s = self.block_at(self.target());
        &&& self.sticky_free()
        &&& self.moved().len() == 0
        &&& self.broken().len() == 0
        &&& pos == self.target()
        &&& dir == self.motion()
        &&& spec_is_movable(s.block, s, self.motion(), false, self.facing())
    }

    /// The broken blocks that go with an outcome of `simple_push`.
    pub open spec fn broken_of(&self, outcome: (bool, nat, bool)) -> Seq<BlockPos> {
        if outcome.2 {
            seq![self.line_pos(outcome.1 as int)]
        } else {
            seq![]
        }
    }

    /// The lists the handler holds now.
    pub open spec fn lists(&self) -> PushLists {
        PushLists { moved: self.moved(), broken: self.broken() }
    }

    /// The geometry and world the handler works in.
    pub open spec fn config(&self) -> PushConfig {
        PushConfig {
            world: *self.world,
            origin: self.pos_from,
            extending: self.extending,
            target: self.pos_to,
            motion: self.motion_direction,
            facing: self.piston_direction,
        }
    }

    pub fn new(world: &'a BlockWorld, pos: BlockPos, dir: BlockDirection, extending: bool) -> (r:
        PistonHandler<'a>)
        requires
            bounded(pos, COORD_LIMIT as int),
        ensures
            r.inv(),
            forall|p: BlockPos| r.block_at(p) == world.get_spec(p),
            r.origin() == pos,
            r.facing() == dir,
            r.is_extending() == extending,
            r.moved().len() == 0,
            r.broken().len() == 0,
            r.config() == (PushConfig {
                world: *world,
                origin: pos,
                extending,
                target: spec_offset(pos, dir, if extending { 1 } else { 2 }),
                motion: if extending { dir } else { spec_opposite(dir) },
                facing: dir,
            }),
    {
        let motion_direction;
        let pos_to = if extending {
            motion_direction = dir;
            pos.offset(dir)
        } else {
            motion_direction = dir.opposite();
            pos.offset_dir(dir, 2)
        };
        PistonHandler {
            world,
            pos_from: pos,
            piston_direction: dir,
            extending,
            motion_direction,
            pos_to,
            moved_blocks: Vec::new(),
            broken_blocks: Vec::new(),
        }
    }

    /// Works out the blocks to move and to break.  Returns whether the piston
    /// can move at all.  The outcome is `plan_push` of the handler's world and
    /// geometry; without slime or honey around it is the plain line scan
    /// `simple_push`.
    pub fn calculate_push(&mut self) -> (r: bool)
        requires
            old(self).inv(),
        ensures
            final(self).inv(),
            final(self).same_config(old(self)),
            final(self).config() == old(self).config(),
            (r, final(self).lists()) == old(self).config().plan_push(),
            old(self).sticky_free() ==> {
                let outcome = old(self).simple_push();
                &&& r == outcome.0
                &&& r ==> final(self).moved() == old(self).line_prefix(outcome.1)
                &&& r ==> final(self).broken() == old(self).broken_of(outcome)
            },
    {
        self.moved_blocks.clear();
        self.broken_blocks.clear();
        let ghost cfg = self.config();
        let ghost empty = PushLists { moved: seq![], broken: seq![] };
        proof {
            assert(self.lists() =~= empty);
        }
        let (block, block_state) = self.world.get_block_and_state(&self.pos_to);
        proof {
            lemma_offset_facts(self.pos_from, self.piston_direction);
            assert(block_state == old(self).block_at(old(self).target()));
            assert(self.motion() == old(self).motion());
            assert(self.facing() == old(self).facing());
        }
        if !PistonBlock::is_movable(
            block,
            block_state,
            self.motion_direction,
            false,
            self.piston_direction,
        ) {
            if self.extending && block_state.piston_behavior == PistonBehavior::Destroy {
                self.broken_blocks.push(self.pos_to);
                proof {
                    assert(self.broken() == seq![self.pos_to]);
                    assert(self.line_pos(0) == self.pos_to) by {
                        lemma_offset_zero(self.pos_to, self.motion_direction);
                    }
                }
                return true;
            }
            return false;
        }
        let pos_to = self.pos_to;
        let motion = self.motion_direction;
        proof {
            lemma_scan_same(*self, *old(self), 1);
            if old(self).sticky_free() {
                assert forall|p: BlockPos| !spec_is_sticky(#[trigger] self.block_at(p).block) by {
                    assert(old(self).block_at(p) == self.block_at(p));
                }
                assert(self.first_move(pos_to, motion));
            }
        }
        if !self.try_move(pos_to, motion) {
            return false;
        }
        let ghost after_moved = self.moved();
        let ghost after_broken = self.broken();
        let n = self.moved_blocks.len();
        let mut i: usize = 0;
        while i < n
            invariant
                self.inv(),
                self.same_config(old(self)),
                self.config() == cfg,
                cfg == old(self).config(),
                n <= self.moved().len(),
                i <= n,
                old(self).sticky_free() ==> self.moved() == after_moved
                    && self.broken() == after_broken,
                cfg.plan_push() == cfg.plan_drag(self.lists(), i as nat, n as nat),
            decreases n - i,
        {
            let block_pos = self.moved_blocks[i];
            let block = self.world.get_block(&block_pos);
            proof {
                assert(self.moved_ok(self.moved()[i as int]));
            }
            if Self::is_block_sticky(block) {
                let ghost before = self.lists();
                let dragged = self.try_move_adjacent_block(block, &block_pos);
                proof {
                    assert(grown(before, self.lists()) == self.lists());
                }
                if !dragged {
                    return false;
                }
            }
            i += 1;
        }
        true
    }

    pub fn is_block_sticky(block: Block) -> (r: bool)
        ensures
            r == spec_is_sticky(block),
    {
        block == Block::SlimeBlock || block == Block::HoneyBlock
    }

    /// Whether a block `state` drags `adjacent_state` along.
    pub fn is_adjacent_block_stuck(state: Block, adjacent_state: Block) -> (r: bool)
        ensures
            r == spec_is_stuck(state, adjacent_state),
    {
        if state == Block::HoneyBlock && adjacent_state == Block::SlimeBlock {
            return false;
        }
        if state == Block::SlimeBlock && adjacent_state == Block::HoneyBlock {
            return false;
        }
        Self::is_block_sticky(state) || Self::is_block_sticky(adjacent_state)
    }

    fn is_piston_head_or_base(&self, pos: BlockPos) -> (r: bool)
        requires
            self.config_ok(),
        ensures
            r == self.is_head_or_base(pos),
    {
        pos == self.pos_from || (!self.extending && pos == self.pos_from.offset(
            self.piston_direction,
        ))
    }

    #[verifier::rlimit(60)]
    fn try_move(&mut self, pos: BlockPos, dir: BlockDirection) -> (r: bool)
        requires
            old(self).inv(),
            near(pos, old(self).origin(), reach(old(self).moved().len()) + 1),
        ensures
            final(self).inv(),
            final(self).same_config(old(self)),
            final(self).config() == old(self).config(),
            final(self).moved().len() >= old(self).moved().len(),
            (r, final(self).lists()) == old(self).config().plan_try_move(old(self).lists(), pos, dir),
            old(self).first_move(pos, dir) ==> {
                let outcome = old(self).simple_push();
                &&& r == outcome.0
                &&& r ==> final(self).moved() == old(self).line_prefix(outcome.1)
                &&& r ==> final(self).broken() == old(self).broken_of(outcome)
            },
        decreases 12 - old(self).moved().len(), 0int,
    {
        let ghost simple = self.first_move(pos, dir);
        let ghost l0 = self.moved().len();
        let ghost cfg = self.config();
        let ghost s0 = self.lists();
        proof {
            lemma_offset_facts(self.pos_from, self.piston_direction);
        }
        let (mut block, block_state) = self.world.get_block_and_state(&pos);
        let ghost b0 = block;
        if block_state.is_air() {
            return true;
        }
        if !PistonBlock::is_movable(block, block_state, self.motion_direction, false, dir) {
            return true;
        }
        if self.is_piston_head_or_base(pos) {
            return true;
        }
        if contains_pos(&self.moved_blocks, &pos) {
            return true;
        }
        let mut i: usize = 1;
        if i + self.moved_blocks.len() > MAX_MOVABLE_BLOCKS {
            return false;
        }
        let motion = self.motion_direction;
        let back = motion.opposite();
        proof {
            lemma_offset_zero(pos, back);
            assert(cfg.plan_try_move(s0, pos, dir) == match cfg.plan_sticky_run(pos, b0, 1, l0) {
                None => (false, s0),
                Some(n) => {
                    let s1 = cfg.pushed_back(s0, pos, n);
                    if n < 1 || n + l0 > 12 {
                        (false, s1)
                    } else {
                        cfg.plan_line(s1, pos, l0, 1)
                    }
                },
            });
        }
        while Self::is_block_sticky(block)
            invariant
                self.inv(),
                self.moved().len() == l0,
                l0 == old(self).moved().len(),
                self.same_config(old(self)),
                self.broken() == old(self).broken(),
                *self == *old(self),
                cfg == old(self).config(),
                s0 == old(self).lists(),
                near(pos, self.origin(), reach(l0) + 1),
                motion == self.motion(),
                back == spec_opposite(motion),
                1 <= i,
                i + l0 <= MAX_MOVABLE_BLOCKS,
                block == self.block_at(spec_offset(pos, back, i - 1)).block,
                simple ==> i == 1,
                simple ==> self.sticky_free(),
                forall|t: int|
                    0 <= t < i ==> {
                        let q = #[trigger] spec_offset(pos, back, t);
                        !spec_is_air(self.block_at(q)) && !self.is_head_or_base(q)
                    },
                cfg.plan_sticky_run(pos, b0, 1, l0) == cfg.plan_sticky_run(pos, block, i as nat, l0),
                cfg.plan_sticky_run(pos, b0, 1, l0) is None ==> cfg.plan_try_move(s0, pos, dir) == (
                    false,
                    s0,
                ),
            ensures
                self.inv(),
                self.moved().len() == l0,
                *self == *old(self),
                1 <= i,
                i + l0 <= MAX_MOVABLE_BLOCKS,
                simple ==> i == 1,
                forall|t: int|
                    0 <= t < i ==> {
                        let q = #[trigger] spec_offset(pos, back, t);
                        !spec_is_air(self.block_at(q)) && !self.is_head_or_base(q)
                    },
                cfg.plan_sticky_run(pos, b0, 1, l0) == Some(i as nat),
            decreases MAX_MOVABLE_BLOCKS - i,
        {
            let block_pos = pos.offset_dir(back, i as i32);
            let block2 = block;
            let (next_block, next_state) = self.world.get_block_and_state(&block_pos);
            if next_state.is_air() || !Self::is_adjacent_block_stuck(block2, next_block)
                || !PistonBlock::is_movable(next_block, next_state, motion, false, back)
                || self.is_piston_head_or_base(block_pos) {
                proof {
                    assert(cfg.plan_sticky_run(pos, block, i as nat, l0) == Some(i as nat));
                }
                break ;
            }
            proof {
                assert(cfg.plan_sticky_run(pos, block, i as nat, l0) == if i + 1 + l0 > 12 {
                    None
                } else {
                    cfg.plan_sticky_run(pos, next_block, (i + 1) as nat, l0)
                });
            }
            block = next_block;
            i += 1;
            if i + self.moved_blocks.len() > MAX_MOVABLE_BLOCKS {
                return false;
            }
        }
        let mut j: usize = 0;
        let mut kk: usize = i;
        while kk > 0
            invariant
                self.inv(),
                self.same_config(old(self)),
                self.config() == cfg,
                near(pos, self.origin(), reach(l0) + 1),
                back == spec_opposite(self.motion()),
                1 <= i,
                i + l0 <= MAX_MOVABLE_BLOCKS,
                kk <= i,
                j == i - kk,
                l0 == old(self).moved().len(),
                self.moved().len() == l0 + j,
                simple ==> i == 1 && l0 == 0 && old(self).sticky_free() && pos == old(self).target(),
                forall|t: int|
                    0 <= t < i ==> {
                        let q = #[trigger] spec_offset(pos, back, t);
                        !spec_is_air(self.block_at(q)) && !self.is_head_or_base(q)
                    },
                forall|t: int| 0 <= t < l0 ==> #[trigger] self.moved()[t] == old(self).moved()[t],
                forall|t: int|
                    l0 <= t < l0 + j ==> #[trigger] self.moved()[t] == spec_offset(
                        pos,
                        back,
                        i - 1 - (t - l0),
                    ),
                self.broken() == old(self).broken(),
            decreases kk,
        {
            kk -= 1;
            let q = pos.offset_dir(back, kk as i32);
            proof {
                lemma_offset_near(pos, back, kk as int);
            }
            let ghost prev = *self;
            self.moved_blocks.push(q);
            j += 1;
            proof {
                assert(self.moved_ok(q));
                lemma_push_moved(prev, *self, q);
            }
        }
        proof {
            assert(self.lists().moved =~= cfg.pushed_back(s0, pos, i as nat).moved);
            assert(self.lists() == cfg.pushed_back(s0, pos, i as nat));
        }
        let ghost pushed_back = i;
        let mut k: usize = 1;
        proof {
            if simple {
                assert(self.moved() =~= self.line_prefix(1));
                assert(old(self).simple_push() == old(self).scan(1));
            }
        }
        loop
            invariant
                self.inv(),
                self.same_config(old(self)),
                self.config() == cfg,
                cfg == old(self).config(),
                s0 == old(self).lists(),
                near(pos, self.origin(), reach(l0) + 1),
                back == spec_opposite(self.motion()),
                motion == self.motion(),
                i == pushed_back,
                simple == old(self).first_move(pos, dir),
                1 <= i,
                1 <= k,
                j == i + k - 1,
                l0 == old(self).moved().len(),
                self.moved().len() == l0 + j,
                forall|t: int|
                    l0 <= t < l0 + i ==> #[trigger] self.moved()[t] == spec_offset(
                        pos,
                        back,
                        i - 1 - (t - l0),
                    ),
                forall|t: int|
                    l0 + i <= t < l0 + j ==> #[trigger] self.moved()[t] == spec_offset(
                        pos,
                        motion,
                        t - l0 - i + 1,
                    ),
                !simple ==> self.broken() == old(self).broken(),
                simple ==> {
                    &&& i == 1
                    &&& l0 == 0
                    &&& old(self).sticky_free()
                    &&& pos == old(self).target()
                    &&& self.moved() == old(self).line_prefix(k as nat)
                    &&& self.broken().len() == 0
                    &&& old(self).simple_push() == old(self).scan(k as nat)
                },
                cfg.plan_try_move(s0, pos, dir) == cfg.plan_line(self.lists(), pos, l0, k as nat),
            decreases MAX_MOVABLE_BLOCKS - self.moved().len(),
        {
            let block_pos2 = pos.offset_dir(motion, k as i32);
            proof {
                lemma_offset_near(pos, motion, k as int);
                assert forall|t: int| l0 <= t < self.moved().len() implies self.moved()[t]
                    != block_pos2 by {
                    let u = t - l0;
                    if u < i {
                        lemma_offset_opposite(pos, motion, i - 1 - u);
                        lemma_offset_distinct(pos, motion, -(i - 1 - u), k as int);
                    } else {
                        lemma_offset_distinct(pos, motion, u - i + 1, k as int);
                    }
                }
            }
            if let Some(l) = position_of(&self.moved_blocks, &block_pos2) {
                proof {
                    assert(l < l0);
                }
                return self.reorder_and_drag(j, l);
            }
            let (block, block_state) = self.world.get_block_and_state(&block_pos2);
            if block_state.is_air() || (!self.extending && block_pos2 == self.pos_from.offset(
                self.piston_direction,
            )) {
                return true;
            }
            if !PistonBlock::is_movable(block, block_state, motion, true, motion)
                || self.is_piston_head_or_base(block_pos2) {
                return false;
            }
            let ghost prev = *self;
            if block_state.piston_behavior == PistonBehavior::Destroy {
                self.broken_blocks.push(block_pos2);
                proof {
                    assert(self.broken_ok(block_pos2));
                    lemma_push_broken(prev, *self, block_pos2);
                    if simple {
                        assert(self.broken() =~= seq![old(self).line_pos(k as int)]);
                    }
                }
                return true;
            }
            if self.moved_blocks.len() >= MAX_MOVABLE_BLOCKS {
                return false;
            }
            self.moved_blocks.push(block_pos2);
            proof {
                assert(self.moved_ok(block_pos2));
                lemma_push_moved(prev, *self, block_pos2);
                if simple {
                    assert(self.moved() =~= old(self).line_prefix((k + 1) as nat));
                }
            }
            j += 1;
            k += 1;
        }
    }

    /// Puts the `j` blocks just listed at index `l`, where the line met a
    /// block listed before, and drags along what sticks to the blocks up to
    /// there.
    fn reorder_and_drag(&mut self, j: usize, l: usize) -> (r: bool)
        requires
            old(self).inv(),
            j >= 1,
            l + j < old(self).moved().len(),
        ensures
            final(self).inv(),
            final(self).same_config(old(self)),
            final(self).config() == old(self).config(),
            final(self).moved().len() >= old(self).moved().len(),
            (r, final(self).lists()) == old(self).config().plan_reorder(
                old(self).lists(),
                j as nat,
                l as nat,
            ),
        decreases 12 - old(self).moved().len(), 2int,
    {
        let ghost cfg = self.config();
        let ghost s_in = self.lists();
        self.set_moved_blocks(j, l);
        proof {
            assert(self.lists() == PushLists {
                moved: moved_to(s_in.moved, j as int, l as int),
                broken: s_in.broken,
            });
        }
        let ghost len_now = self.moved().len();
        let mut m: usize = 0;
        while m <= l + j
            invariant
                self.inv(),
                self.same_config(old(self)),
                self.config() == cfg,
                cfg == old(self).config(),
                s_in == old(self).lists(),
                l + j < len_now,
                len_now <= self.moved().len(),
                len_now == old(self).moved().len(),
                m <= l + j + 1,
                cfg.plan_reorder(s_in, j as nat, l as nat) == cfg.plan_drag(
                    self.lists(),
                    m as nat,
                    (l + j + 1) as nat,
                ),
            decreases l + j + 1 - m,
        {
            let block_pos3 = self.moved_blocks[m];
            let block = self.world.get_block(&block_pos3);
            proof {
                assert(self.moved_ok(self.moved()[m as int]));
            }
            if Self::is_block_sticky(block) {
                let ghost before = self.lists();
                let dragged = self.try_move_adjacent_block(block, &block_pos3);
                proof {
                    assert(grown(before, self.lists()) == self.lists());
                }
                if !dragged {
                    return false;
                }
            }
            m += 1;
        }
        true
    }

    /// Moves the last `from` entries of the moved list to index `to`.
    fn set_moved_blocks(&mut self, from: usize, to: usize)
        requires
            old(self).inv(),
            to + from <= old(self).moved().len(),
        ensures
            final(self).inv(),
            final(self).same_config(old(self)),
            final(self).config() == old(self).config(),
            final(self).broken() == old(self).broken(),
            final(self).moved() == old(self).moved().subrange(0, to as int)
                + old(self).moved().subrange(
                old(self).moved().len() - from,
                old(self).moved().len() as int,
            ) + old(self).moved().subrange(
                to as int,
                old(self).moved().len() - from,
            ),
    {
        let len = self.moved_blocks.len();
        let ghost old_moved = self.moved();
        let mut list: Vec<BlockPos> = Vec::new();
        let mut a: usize = 0;
        while a < to
            invariant
                a <= to,
                to + from <= len,
                len == self.moved().len(),
                self.moved() == old_moved,
                list@ == old_moved.subrange(0, a as int),
            decreases to - a,
        {
            list.push(self.moved_blocks[a]);
            a += 1;
            proof {
                assert(list@ =~= old_moved.subrange(0, a as int));
            }
        }
        let mut b: usize = len - from;
        while b < len
            invariant
                len - from <= b <= len,
                to + from <= len,
                len == self.moved().len(),
                self.moved() == old_moved,
                list@ == old_moved.subrange(0, to as int) + old_moved.subrange(
                    len - from,
                    b as int,
                ),
            decreases len - b,
        {
            list.push(self.moved_blocks[b]);
            b += 1;
            proof {
                assert(list@ =~= old_moved.subrange(0, to as int) + old_moved.subrange(
                    len - from,
                    b as int,
                ));
            }
        }
        let mut c: usize = to;
        while c < len - from
            invariant
                to <= c <= len - from,
                to + from <= len,
                len == self.moved().len(),
                self.moved() == old_moved,
                list@ == old_moved.subrange(0, to as int) + old_moved.subrange(
                    len - from,
                    len as int,
                ) + old_moved.subrange(to as int, c as int),
            decreases len - from - c,
        {
            list.push(self.moved_blocks[c]);
            c += 1;
            proof {
                assert(list@ =~= old_moved.subrange(0, to as int) + old_moved.subrange(
                    len - from,
                    len as int,
                ) + old_moved.subrange(to as int, c as int));
            }
        }
        self.moved_blocks = list;
        proof {
            let sa = old_moved.subrange(0, to as int);
            let sb = old_moved.subrange(len - from, len as int);
            let sc = old_moved.subrange(to as int, len - from);
            assert(self.moved() == sa + sb + sc);
            assert(self.moved().len() == len);
            assert forall|t: int| 0 <= t < self.moved().len() implies #[trigger] self.moved_ok(
                self.moved()[t],
            ) by {
                if t < to {
                    assert((sa + sb)[t] == sa[t]);
                    assert(self.moved()[t] == old_moved[t]);
                    assert(old(self).moved_ok(old_moved[t]));
                } else if t < to + from {
                    assert((sa + sb)[t] == sb[t - to]);
                    assert(self.moved()[t] == old_moved[len - from + (t - to)]);
                    assert(old(self).moved_ok(old_moved[len - from + (t - to)]));
                } else {
                    assert(self.moved()[t] == sc[t - to - from]);
                    assert(self.moved()[t] == old_moved[t - from]);
                    assert(old(self).moved_ok(old_moved[t - from]));
                }
            }
            assert forall|t: int| 0 <= t < self.broken().len() implies #[trigger] self.broken_ok(
                self.broken()[t],
            ) by {
                assert(old(self).broken_ok(old(self).broken()[t]));
            }
        }
    }

    fn try_move_adjacent_block(&mut self, block: Block, pos: &BlockPos) -> (r: bool)
        requires
            old(self).inv(),
            near(*pos, old(self).origin(), reach(old(self).moved().len())),
        ensures
            final(self).inv(),
            final(self).same_config(old(self)),
            final(self).config() == old(self).config(),
            final(self).moved().len() >= old(self).moved().len(),
            (r, final(self).lists()) == old(self).config().plan_adjacent(
                old(self).lists(),
                block,
                *pos,
                0,
            ),
        decreases 12 - old(self).moved().len(), 1int,
    {
        let ghost l_in = self.moved().len();
        let ghost cfg = self.config();
        let ghost s_in = self.lists();
        let dirs = BlockDirection::all();
        assert(dirs@ == all_directions());
        let motion_axis = self.motion_direction.to_axis();
        let mut t: usize = 0;
        while t < 6
            invariant
                self.inv(),
                self.same_config(old(self)),
                self.config() == cfg,
                cfg == old(self).config(),
                s_in == old(self).lists(),
                self.moved().len() >= l_in,
                l_in == old(self).moved().len(),
                near(*pos, self.origin(), reach(l_in)),
                motion_axis == spec_axis(self.motion()),
                dirs@ == all_directions(),
                t <= 6,
                cfg.plan_adjacent(s_in, block, *pos, 0) == cfg.plan_adjacent(
                    self.lists(),
                    block,
                    *pos,
                    t as nat,
                ),
            decreases 6 - t,
        {
            let direction = dirs[t];
            if direction.to_axis() == motion_axis {
                t += 1;
                continue ;
            }
            proof {
                lemma_offset_facts(self.pos_from, self.piston_direction);
            }
            let block_pos = pos.offset(direction);
            proof {
                lemma_offset_near(*pos, direction, 1);
            }
            let block_state2 = self.world.get_block(&block_pos);
            if Self::is_adjacent_block_stuck(block_state2, block) {
                let ghost before = self.lists();
                let moved_on = self.try_move(block_pos, direction);
                proof {
                    assert(grown(before, self.lists()) == self.lists());
                }
                if !moved_on {
                    return false;
                }
            }
            t += 1;
        }
        true
    }
}

/// Scanning the line never moves more blocks than the limit.
proof fn lemma_scan_bounds<'a>(h: PistonHandler<'a>, k: nat)
    requires
        1 <= k <= 12,
    ensures
        h.scan(k).1 >= k,
        h.scan(k).0 ==> h.scan(k).1 <= MAX_MOVABLE_BLOCKS,
    decreases 12 - k,
{
    if k < 12 {
        lemma_scan_bounds(h, k + 1);
    }
}

/// In a world without slime or honey, a push that succeeds moves at most
/// twelve blocks.
pub proof fn law_push_limit<'a>(h: PistonHandler<'a>)
    requires
        h.inv(),
    ensures
        h.simple_push().0 ==> h.simple_push().1 <= MAX_MOVABLE_BLOCKS,
{
    lemma_scan_bounds(h, 1);
}

/// `after` holds the lists of `before` grown within the limit.
pub open spec fn fits(before: PushLists, after: PushLists) -> bool {
    before.moved.len() <= after.moved.len() <= MAX_MOVABLE_BLOCKS
}

/// A block a push may list as moved: not air, and not the piston's base (nor,
/// for a retracting piston, its head).
pub open spec fn solid_entry(cfg: PushConfig, p: BlockPos) -> bool {
    !spec_is_air(cfg.world.get_spec(p)) && !cfg.is_head_or_base(p)
}

/// Every block of the moved list is one a push may list.
pub open spec fn all_solid(cfg: PushConfig, s: PushLists) -> bool {
    forall|t: int| 0 <= t < s.moved.len() ==> #[trigger] solid_entry(cfg, s.moved[t])
}

proof fn lemma_sticky_run_solid(cfg: PushConfig, pos: BlockPos, block: Block, i: nat, l0: nat)
    ensures
        cfg.plan_sticky_run(pos, block, i, l0) matches Some(n) ==> forall|t: int|
            i <= t < n ==> #[trigger] solid_entry(cfg, spec_offset(pos, spec_opposite(cfg.motion), t)),
    decreases 12 - i,
{
    if i + 1 + l0 <= 12 {
        let bp = spec_offset(pos, spec_opposite(cfg.motion), i as int);
        lemma_sticky_run_solid(cfg, pos, cfg.world.get_spec(bp).block, i + 1, l0);
    }
}

proof fn lemma_try_move_solid(cfg: PushConfig, s: PushLists, pos: BlockPos, dir: BlockDirection)
    requires
        s.moved.len() <= 12,
        all_solid(cfg, s),
    ensures
        all_solid(cfg, cfg.plan_try_move(s, pos, dir).1),
    decreases 12 - s.moved.len(), 0int, 0int,
{
    let st = cfg.world.get_spec(pos);
    let l0 = s.moved.len();
    if !(spec_is_air(st) || !spec_is_movable(st.block, st, cfg.motion, false, dir)
        || cfg.is_head_or_base(pos) || s.moved.contains(pos)) && 1 + l0 <= 12 {
        lemma_sticky_run_fits(cfg, pos, st.block, 1, l0);
        lemma_sticky_run_solid(cfg, pos, st.block, 1, l0);
        if let Some(i) = cfg.plan_sticky_run(pos, st.block, 1, l0) {
            let back = spec_opposite(cfg.motion);
            let s1 = cfg.pushed_back(s, pos, i);
            assert(spec_offset(pos, back, 0) == pos);
            assert forall|t: int| 0 <= t < s1.moved.len() implies #[trigger] solid_entry(
                cfg,
                s1.moved[t],
            ) by {
                if t >= l0 {
                    let u = i - 1 - (t - l0);
                    assert(s1.moved[t] == spec_offset(pos, back, u));
                    if u >= 1 {
                        assert(1 <= u < i);
                    }
                } else {
                    assert(s1.moved[t] == s.moved[t]);
                }
            }
            if i >= 1 && i + l0 <= 12 {
                lemma_line_solid(cfg, s1, pos, l0, 1);
            }
        }
    }
}

proof fn lemma_line_solid(cfg: PushConfig, s: PushLists, pos: BlockPos, l0: nat, k: nat)
    requires
        s.moved.len() <= 12,
        all_solid(cfg, s),
    ensures
        all_solid(cfg, cfg.plan_line(s, pos, l0, k).1),
    decreases 12 - s.moved.len(), 4int, 0int,
{
    if s.moved.len() >= l0 {
        let bp = spec_offset(pos, cfg.motion, k as int);
        match first_index(s.moved, bp, 0) {
            Some(l) => {
                lemma_reorder_solid(cfg, s, (s.moved.len() - l0) as nat, l as nat);
            },
            None => {
                if s.moved.len() < 12 {
                    let next = PushLists { moved: s.moved.push(bp), broken: s.broken };
                    let st = cfg.world.get_spec(bp);
                    if !(spec_is_air(st) || (!cfg.extending && bp == cfg.head_pos())) && !(
                    !spec_is_movable(st.block, st, cfg.motion, true, cfg.motion)
                        || cfg.is_head_or_base(bp)) {
                        assert forall|t: int| 0 <= t < next.moved.len() implies #[trigger] solid_entry(
                            cfg,
                            next.moved[t],
                        ) by {
                            if t < s.moved.len() {
                                assert(next.moved[t] == s.moved[t]);
                            }
                        }
                        lemma_line_solid(cfg, next, pos, l0, k + 1);
                    }
                }
            },
        }
    }
}

proof fn lemma_reorder_solid(cfg: PushConfig, s: PushLists, j: nat, l: nat)
    requires
        s.moved.len() <= 12,
        all_solid(cfg, s),
    ensures
        all_solid(cfg, cfg.plan_reorder(s, j, l).1),
    decreases 12 - s.moved.len(), 3int, 0int,
{
    if l + j <= s.moved.len() {
        let m = s.moved;
        let s1 = PushLists { moved: moved_to(m, j as int, l as int), broken: s.broken };
        let n = m.len() as int;
        assert(s1.moved.len() == m.len());
        assert forall|t: int| 0 <= t < s1.moved.len() implies #[trigger] solid_entry(
            cfg,
            s1.moved[t],
        ) by {
            if t < l {
                assert(s1.moved[t] == m[t]);
            } else if t < l + j {
                assert(s1.moved[t] == m[n - j + (t - l)]);
            } else {
                assert(s1.moved[t] == m[t - j]);
            }
        }
        lemma_drag_solid(cfg, s1, 0, l + j + 1);
    }
}

proof fn lemma_drag_solid(cfg: PushConfig, s: PushLists, m: nat, bound: nat)
    requires
        s.moved.len() <= 12,
        all_solid(cfg, s),
    ensures
        all_solid(cfg, cfg.plan_drag(s, m, bound).1),
    decreases 12 - s.moved.len(), 2int, bound - m,
{
    if m < bound {
        let p = s.moved[m as int];
        let b = cfg.world.get_spec(p).block;
        if spec_is_sticky(b) {
            lemma_adjacent_fits(cfg, s, b, p, 0);
            lemma_adjacent_solid(cfg, s, b, p, 0);
            let r = cfg.plan_adjacent(s, b, p, 0);
            if r.0 {
                lemma_drag_solid(cfg, grown(s, r.1), m + 1, bound);
            }
        } else {
            lemma_drag_solid(cfg, s, m + 1, bound);
        }
    }
}

proof fn lemma_adjacent_solid(cfg: PushConfig, s: PushLists, block: Block, pos: BlockPos, t: nat)
    requires
        s.moved.len() <= 12,
        all_solid(cfg, s),
    ensures
        all_solid(cfg, cfg.plan_adjacent(s, block, pos, t).1),
    decreases 12 - s.moved.len(), 1int, 6 - t,
{
    if t < 6 {
        let d = all_directions()[t as int];
        if spec_axis(d) == spec_axis(cfg.motion) {
            lemma_adjacent_solid(cfg, s, block, pos, t + 1);
        } else {
            let bp = spec_offset(pos, d, 1);
            if spec_is_stuck(cfg.world.get_spec(bp).block, block) {
                lemma_try_move_fits(cfg, s, bp, d);
                lemma_try_move_solid(cfg, s, bp, d);
                let r = cfg.plan_try_move(s, bp, d);
                if r.0 {
                    lemma_adjacent_solid(cfg, grown(s, r.1), block, pos, t + 1);
                }
            } else {
                lemma_adjacent_solid(cfg, s, block, pos, t + 1);
            }
        }
    }
}

/// Whatever slime and honey stand around, a push lists as moved only blocks
/// that are not air, and never the piston's base nor, when it retracts, its
/// head.
pub proof fn law_push_moves_only_solid_blocks(cfg: PushConfig)
    ensures
        forall|t: int|
            0 <= t < cfg.plan_push().1.moved.len() ==> {
                let p = #[trigger] cfg.plan_push().1.moved[t];
                !spec_is_air(cfg.world.get_spec(p)) && !cfg.is_head_or_base(p)
            },
{
    let empty = PushLists { moved: seq![], broken: seq![] };
    lemma_try_move_fits(cfg, empty, cfg.target, cfg.motion);
    lemma_try_move_solid(cfg, empty, cfg.target, cfg.motion);
    let r = cfg.plan_try_move(empty, cfg.target, cfg.motion);
    lemma_drag_solid(cfg, r.1, 0, r.1.moved.len());
    let fin = cfg.plan_push().1;
    assert forall|t: int| 0 <= t < fin.moved.len() implies {
        let p = #[trigger] fin.moved[t];
        !spec_is_air(cfg.world.get_spec(p)) && !cfg.is_head_or_base(p)
    } by {
        assert(solid_entry(cfg, fin.moved[t]));
    }
}

proof fn lemma_sticky_run_fits(cfg: PushConfig, pos: BlockPos, block: Block, i: nat, l0: nat)
    requires
        1 <= i,
        i + l0 <= 12,
    ensures
        cfg.plan_sticky_run(pos, block, i, l0) matches Some(n) ==> i <= n && n + l0 <= 12,
    decreases 12 - i,
{
    if i + 1 + l0 <= 12 {
        let bp = spec_offset(pos, spec_opposite(cfg.motion), i as int);
        lemma_sticky_run_fits(cfg, pos, cfg.world.get_spec(bp).block, i + 1, l0);
    }
}

proof fn lemma_try_move_fits(cfg: PushConfig, s: PushLists, pos: BlockPos, dir: BlockDirection)
    requires
        s.moved.len() <= 12,
    ensures
        fits(s, cfg.plan_try_move(s, pos, dir).1),
    decreases 12 - s.moved.len(), 0int, 0int,
{
    let st = cfg.world.get_spec(pos);
    let l0 = s.moved.len();
    if !(spec_is_air(st) || !spec_is_movable(st.block, st, cfg.motion, false, dir)
        || cfg.is_head_or_base(pos) || s.moved.contains(pos)) && 1 + l0 <= 12 {
        lemma_sticky_run_fits(cfg, pos, st.block, 1, l0);
        if let Some(i) = cfg.plan_sticky_run(pos, st.block, 1, l0) {
            let s1 = cfg.pushed_back(s, pos, i);
            assert(s1.moved.len() == l0 + i);
            lemma_line_fits(cfg, s1, pos, l0, 1);
        }
    }
}

proof fn lemma_line_fits(cfg: PushConfig, s: PushLists, pos: BlockPos, l0: nat, k: nat)
    requires
        s.moved.len() <= 12,
    ensures
        fits(s, cfg.plan_line(s, pos, l0, k).1),
    decreases 12 - s.moved.len(), 4int, 0int,
{
    if s.moved.len() >= l0 {
        let bp = spec_offset(pos, cfg.motion, k as int);
        match first_index(s.moved, bp, 0) {
            Some(l) => {
                lemma_reorder_fits(cfg, s, (s.moved.len() - l0) as nat, l as nat);
            },
            None => {
                if s.moved.len() < 12 {
                    let next = PushLists { moved: s.moved.push(bp), broken: s.broken };
                    lemma_line_fits(cfg, next, pos, l0, k + 1);
                }
            },
        }
    }
}

proof fn lemma_reorder_fits(cfg: PushConfig, s: PushLists, j: nat, l: nat)
    requires
        s.moved.len() <= 12,
    ensures
        fits(s, cfg.plan_reorder(s, j, l).1),
    decreases 12 - s.moved.len(), 3int, 0int,
{
    if l + j <= s.moved.len() {
        let s1 = PushLists { moved: moved_to(s.moved, j as int, l as int), broken: s.broken };
        assert(s1.moved.len() == s.moved.len());
        lemma_drag_fits(cfg, s1, 0, l + j + 1);
    }
}

proof fn lemma_drag_fits(cfg: PushConfig, s: PushLists, m: nat, bound: nat)
    requires
        s.moved.len() <= 12,
    ensures
        fits(s, cfg.plan_drag(s, m, bound).1),
    decreases 12 - s.moved.len(), 2int, bound - m,
{
    if m < bound {
        let p = s.moved[m as int];
        let b = cfg.world.get_spec(p).block;
        if spec_is_sticky(b) {
            lemma_adjacent_fits(cfg, s, b, p, 0);
            let r = cfg.plan_adjacent(s, b, p, 0);
            if r.0 {
                lemma_drag_fits(cfg, grown(s, r.1), m + 1, bound);
            }
        } else {
            lemma_drag_fits(cfg, s, m + 1, bound);
        }
    }
}

proof fn lemma_adjacent_fits(cfg: PushConfig, s: PushLists, block: Block, pos: BlockPos, t: nat)
    requires
        s.moved.len() <= 12,
    ensures
        fits(s, cfg.plan_adjacent(s, block, pos, t).1),
    decreases 12 - s.moved.len(), 1int, 6 - t,
{
    if t < 6 {
        let d = all_directions()[t as int];
        if spec_axis(d) == spec_axis(cfg.motion) {
            lemma_adjacent_fits(cfg, s, block, pos, t + 1);
        } else {
            let bp = spec_offset(pos, d, 1);
            if spec_is_stuck(cfg.world.get_spec(bp).block, block) {
                lemma_try_move_fits(cfg, s, bp, d);
                let r = cfg.plan_try_move(s, bp, d);
                if r.0 {
                    lemma_adjacent_fits(cfg, grown(s, r.1), block, pos, t + 1);
                }
            } else {
                lemma_adjacent_fits(cfg, s, block, pos, t + 1);
            }
        }
    }
}

/// Moving one block (with what sticks to it and the line in front of it)
/// never takes a moved list of at most twelve entries past twelve, nor
/// shortens it; and a block that would join a full list stops the push.
pub proof fn law_try_move_limit(cfg: PushConfig, s: PushLists, pos: BlockPos, dir: BlockDirection)
    requires
        s.moved.len() <= MAX_MOVABLE_BLOCKS,
    ensures
        fits(s, cfg.plan_try_move(s, pos, dir).1),
        ({
            let st = cfg.world.get_spec(pos);
            &&& !spec_is_air(st)
            &&& spec_is_movable(st.block, st, cfg.motion, false, dir)
            &&& !cfg.is_head_or_base(pos)
            &&& !s.moved.contains(pos)
            &&& s.moved.len() == MAX_MOVABLE_BLOCKS
        }) ==> !cfg.plan_try_move(s, pos, dir).0,
{
    lemma_try_move_fits(cfg, s, pos, dir);
}

/// Whatever slime and honey stand around, the blocks a push lists as moved,
/// whether or not the piston can move, never number more than twelve.
pub proof fn law_push_limit_every_world(cfg: PushConfig)
    ensures
        cfg.plan_push().1.moved.len() <= MAX_MOVABLE_BLOCKS,
{
    let empty = PushLists { moved: seq![], broken: seq![] };
    lemma_try_move_fits(cfg, empty, cfg.target, cfg.motion);
    let r = cfg.plan_try_move(empty, cfg.target, cfg.motion);
    lemma_drag_fits(cfg, r.1, 0, r.1.moved.len());
}

/// In a world without slime or honey, a retracting sticky piston pulls at
/// most the one block in front of its head, and never breaks a block.
pub proof fn law_retraction_pulls_one<'a>(h: PistonHandler<'a>)
    requires
        h.inv(),
        !h.is_extending(),
    ensures
        h.simple_push().1 <= 1,
        !h.simple_push().2,
{
    lemma_offset_facts(h.origin(), h.facing());
}

/// Whether `pos` occurs in `list`.
fn contains_pos(list: &Vec<BlockPos>, pos: &BlockPos) -> (r: bool)
    ensures
        r == list@.contains(*pos),
{
    match position_of(list, pos) {
        Some(_) => true,
        None => false,
    }
}

/// The first index at which `pos` occurs in `list`.
fn position_of(list: &Vec<BlockPos>, pos: &BlockPos) -> (r: Option<usize>)
    ensures
        r matches Some(l) ==> l < list@.len() && list@[l as int] == *pos && forall|t: int|
            0 <= t < l ==> list@[t] != *pos,
        r is None ==> forall|t: int| 0 <= t < list@.len() ==> list@[t] != *pos,
        r is None <==> !list@.contains(*pos),
        match r {
            Some(l) => first_index(list@, *pos, 0) == Some(l as int),
            None => first_index(list@, *pos, 0) is None,
        },
{
    let mut i: usize = 0;
    while i < list.len()
        invariant
            i <= list@.len(),
            forall|t: int| 0 <= t < i ==> list@[t] != *pos,
            first_index(list@, *pos, 0) == first_index(list@, *pos, i as int),
        decreases list@.len() - i,
    {
        if list[i] == *pos {
            return Some(i);
        }
        i += 1;
    }
    None
}

/// Two handlers over the same world and geometry scan the line alike.
proof fn lemma_scan_same<'a>(a: PistonHandler<'a>, b: PistonHandler<'a>, k: nat)
    requires
        a.same_config(&b),
    ensures
        a.scan(k) == b.scan(k),
    decreases 12 - k,
{
    if k < 12 {
        lemma_scan_same(a, b, k + 1);
    }
}

proof fn lemma_push_moved<'a>(prev: PistonHandler<'a>, cur: PistonHandler<'a>, x: BlockPos)
    requires
        prev.inv(),
        cur.same_config(&prev),
        cur.broken() == prev.broken(),
        cur.moved() == prev.moved().push(x),
        cur.moved().len() <= MAX_MOVABLE_BLOCKS,
        cur.moved_ok(x),
    ensures
        cur.inv(),
{
    assert forall|t: int| 0 <= t < cur.moved().len() implies #[trigger] cur.moved_ok(
        cur.moved()[t],
    ) by {
        if t < cur.moved().len() - 1 {
            assert(prev.moved_ok(prev.moved()[t]));
        }
    }
    assert forall|t: int| 0 <= t < cur.broken().len() implies #[trigger] cur.broken_ok(
        cur.broken()[t],
    ) by {
        assert(prev.broken_ok(prev.broken()[t]));
    }
}

proof fn lemma_push_broken<'a>(prev: PistonHandler<'a>, cur: PistonHandler<'a>, x: BlockPos)
    requires
        prev.inv(),
        cur.same_config(&prev),
        cur.moved() == prev.moved(),
        cur.broken() == prev.broken().push(x),
        cur.broken_ok(x),
    ensures
        cur.inv(),
{
    assert forall|t: int| 0 <= t < cur.moved().len() implies #[trigger] cur.moved_ok(
        cur.moved()[t],
    ) by {
        assert(prev.moved_ok(prev.moved()[t]));
    }
    assert forall|t: int| 0 <= t < cur.broken().len() implies #[trigger] cur.broken_ok(
        cur.broken()[t],
    ) by {
        if t < cur.broken().len() - 1 {
            assert(prev.broken_ok(prev.broken()[t]));
        }
    }
}

proof fn lemma_offset_zero(p: BlockPos, d: BlockDirection)
    ensures
        spec_offset(p, d, 0) == p,
{
}

/// Offsets of the piston position stay bounded and apart.
proof fn lemma_offset_facts(p: BlockPos, d: BlockDirection)
    requires
        bounded(p, COORD_LIMIT as int),
    ensures
        spec_offset(p, d, 1) != p,
        spec_offset(p, d, 2) != p,
        spec_offset(p, d, 2) != spec_offset(p, d, 1),
        near(spec_offset(p, d, 1), p, 2),
        near(spec_offset(p, d, 2), p, 2),
        spec_offset(spec_offset(p, d, 2), spec_opposite(d), 1) == spec_offset(p, d, 1),
{
}

proof fn lemma_offset_near(p: BlockPos, d: BlockDirection, n: int)
    requires
        bounded(p, 1_100_000_000),
        0 <= n <= 1000,
    ensures
        near(spec_offset(p, d, n), p, n),
        bounded(spec_offset(p, d, n), 1_100_001_000),
{
}

proof fn lemma_offset_opposite(p: BlockPos, d: BlockDirection, n: int)
    requires
        bounded(p, 1_100_000_000),
        -1000 <= n <= 1000,
    ensures
        spec_offset(p, spec_opposite(d), n) == spec_offset(p, d, -n),
{
}

proof fn lemma_offset_distinct(p: BlockPos, d: BlockDirection, a: int, b: int)
    requires
        bounded(p, 1_100_000_000),
        -1000 <= a <= 1000,
        -1000 <= b <= 1000,
        a != b,
    ensures
        spec_offset(p, d, a) != spec_offset(p, d, b),
{
}

} // verus!
