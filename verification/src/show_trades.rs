use vstd::prelude::*;

verus! {

/// The part of a villager's trade offer that decides whether it is shown: the
/// item ids of its costs and whether it is out of stock.  The offer's result
/// is found again by the offer's index.
#[derive(Clone, Copy, Debug, PartialEq, Eq, Structural)]
pub struct TradeOffer {
    pub cost_a: u16,
    pub cost_b: Option<u16>,
    pub out_of_stock: bool,
}

/// What the villager holds out after a tick.
#[derive(Clone, Copy, Debug, PartialEq, Eq, Structural)]
pub enum TradeDisplay {
    /// The hand stays as it is.
    Keep,
    /// The hand is emptied.
    Clear,
    /// The result of the offer with this index is held out.
    Show(usize),
}

/// The result of a tick: the display change and whether the villager looks at
/// the player.
#[derive(Clone, Copy, Debug, PartialEq, Eq, Structural)]
pub struct TradeTick {
    pub display: TradeDisplay,
    pub look_at_player: bool,
}

/// A villager holds out the results of the trades that the nearest player's
/// held item pays for, cycling through them every 40 ticks.
pub struct ShowTradesToPlayerGoal {
    pub cycle_counter: i32,
    pub display_index: usize,
    /// The indices of the offers being shown, in offer order.
    pub matching_offers: Vec<usize>,
    pub last_held_item_id: Option<u16>,
    pub is_showing: bool,
}

/// The goal as plain values.
pub struct TradesView {
    pub cycle_counter: int,
    pub display_index: int,
    pub matching: Seq<usize>,
    pub last_held: Option<u16>,
    pub showing: bool,
}

/// An offer in stock that takes `id` as one of its costs.
pub open spec fn offer_matches(o: TradeOffer, id: u16) -> bool {
    !o.out_of_stock && (o.cost_a == id || o.cost_b == Some(id))
}

/// The indices below `n` of the offers that match `id`, in order.
pub open spec fn spec_matching(offers: Seq<TradeOffer>, id: u16, n: int) -> Seq<usize>
    decreases n,
{
    if n <= 0 {
        Seq::empty()
    } else if offer_matches(offers[n - 1], id) {
        spec_matching(offers, id, n - 1).push((n - 1) as usize)
    } else {
        spec_matching(offers, id, n - 1)
    }
}

pub open spec fn cleared(v: TradesView) -> TradesView {
    TradesView {
        cycle_counter: 0,
        display_index: 0,
        matching: Seq::empty(),
        last_held: None,
        showing: false,
    }
}

/// A tick: `adult` says the villager is alive and grown, `held` is the id of
/// the item the nearest player within reach holds (none without such a player
/// or with an empty hand).
pub open spec fn spec_trades_tick(v: TradesView, offers: Seq<TradeOffer>, adult: bool, held: Option<
    u16,
>) -> (TradesView, TradeTick) {
    if !adult || held is None {
        (
            cleared(v),
            TradeTick {
                display: if v.showing {
                    TradeDisplay::Clear
                } else {
                    TradeDisplay::Keep
                },
                look_at_player: false,
            },
        )
    } else {
        let id = held->0;
        let (v1, d1) = if v.last_held != Some(id) {
            let m = spec_matching(offers, id, offers.len() as int);
            if m.len() > 0 {
                (
                    TradesView {
                        cycle_counter: 0,
                        display_index: 0,
                        matching: m,
                        last_held: Some(id),
                        showing: true,
                    },
                    TradeDisplay::Show(m[0]),
                )
            } else {
                (cleared(v), if v.showing {
                    TradeDisplay::Clear
                } else {
                    TradeDisplay::Keep
                })
            }
        } else {
            (v, TradeDisplay::Keep)
        };
        let (v2, d2) = if v1.matching.len() >= 2 {
            if v1.cycle_counter + 1 >= 40 {
                let idx = (v1.display_index + 1) % (v1.matching.len() as int);
                (
                    TradesView { cycle_counter: 0, display_index: idx, ..v1 },
                    TradeDisplay::Show(v1.matching[idx]),
                )
            } else {
                (TradesView { cycle_counter: v1.cycle_counter + 1, ..v1 }, d1)
            }
        } else {
            (v1, d1)
        };
        (v2, TradeTick { display: d2, look_at_player: v2.showing })
    }
}

impl ShowTradesToPlayerGoal {
    pub open spec fn view(&self) -> TradesView {
        TradesView {
            cycle_counter: self.cycle_counter as int,
            display_index: self.display_index as int,
            matching: self.matching_offers@,
            last_held: self.last_held_item_id,
            showing: self.is_showing,
        }
    }

    /// The offers being shown are valid indices and the shown one is among
    /// them.
    pub closed spec fn wf(&self, offers_len: int) -> bool {
        &&& 0 <= self.cycle_counter < 40
        &&& forall|i: int|
            0 <= i < self.matching_offers@.len() ==> #[trigger] self.matching_offers@[i]
                < offers_len
        &&& (self.matching_offers@.len() == 0 || self.display_index < self.matching_offers@.len())
    }

    pub fn new() -> (r: ShowTradesToPlayerGoal)
        ensures
            r.view() == cleared(r.view()),
            forall|n: int| r.wf(n),
    {
        ShowTradesToPlayerGoal {
            cycle_counter: 0,
            display_index: 0,
            matching_offers: Vec::new(),
            last_held_item_id: None,
            is_showing: false,
        }
    }

    /// The goal runs while the villager is alive and grown and a living
    /// player is within reach.
    pub fn can_start(alive: bool, age: i32, player_in_reach: bool) -> (r: bool)
        ensures
            r == (alive && age >= 0 && player_in_reach),
    {
        alive && age >= 0 && player_in_reach
    }

    pub fn should_continue(alive: bool, age: i32, player_in_reach: bool) -> (r: bool)
        ensures
            r == (alive && age >= 0 && player_in_reach),
    {
        Self::can_start(alive, age, player_in_reach)
    }

    /// Forgets what was shown; answers whether the hand must be emptied.
    pub fn clear_display(&mut self) -> (r: bool)
        ensures
            r == old(self).view().showing,
            final(self).view() == cleared(old(self).view()),
    {
        let was = self.is_showing;
        self.is_showing = false;
        self.matching_offers.clear();
        self.last_held_item_id = None;
        self.cycle_counter = 0;
        self.display_index = 0;
        was
    }

    /// Stopping forgets what was shown; answers whether the hand must be
    /// emptied.
    pub fn stop(&mut self) -> (r: bool)
        ensures
            r == old(self).view().showing,
            final(self).view() == cleared(old(self).view()),
    {
        self.clear_display()
    }

    /// The indices of the offers that match `id`, in order.
    pub fn matching_offers_for(offers: &Vec<TradeOffer>, id: u16) -> (r: Vec<usize>)
        ensures
            r@ == spec_matching(offers@, id, offers@.len() as int),
    {
        let mut r: Vec<usize> = Vec::new();
        let mut i: usize = 0;
        while i < offers.len()
            invariant
                0 <= i <= offers@.len(),
                r@ == spec_matching(offers@, id, i as int),
            decreases offers@.len() - i,
        {
            let o = offers[i];
            if !o.out_of_stock && (o.cost_a == id || o.cost_b == Some(id)) {
                r.push(i);
            }
            i += 1;
        }
        r
    }

    /// One tick (see `spec_trades_tick`).
    pub fn tick(&mut self, offers: &Vec<TradeOffer>, adult: bool, held: Option<u16>) -> (r: TradeTick)
        requires
            old(self).wf(offers@.len() as int),
        ensures
            (final(self).view(), r) == spec_trades_tick(old(self).view(), offers@, adult, held),
            final(self).wf(offers@.len() as int),
    {
        if !adult {
            let was = self.clear_display();
            return TradeTick {
                display: if was {
                    TradeDisplay::Clear
                } else {
                    TradeDisplay::Keep
                },
                look_at_player: false,
            };
        }
        let id = match held {
            None => {
                let was = self.clear_display();
                return TradeTick {
                    display: if was {
                        TradeDisplay::Clear
                    } else {
                        TradeDisplay::Keep
                    },
                    look_at_player: false,
                };
            },
            Some(id) => id,
        };
        let mut display = TradeDisplay::Keep;
        if self.last_held_item_id != Some(id) {
            let m = Self::matching_offers_for(offers, id);
            let count = offers.len();
            proof {
                assert(offers@.len() == count);
                lemma_matching_in_bounds(offers@, id, offers@.len() as int);
            }
            if m.len() > 0 {
                display = TradeDisplay::Show(m[0]);
                self.matching_offers = m;
                self.last_held_item_id = Some(id);
                self.display_index = 0;
                self.cycle_counter = 0;
                self.is_showing = true;
            } else {
                let was = self.clear_display();
                if was {
                    display = TradeDisplay::Clear;
                }
            }
        }
        if self.matching_offers.len() >= 2 {
            if self.cycle_counter + 1 >= 40 {
                self.cycle_counter = 0;
                self.display_index = (self.display_index + 1) % self.matching_offers.len();
                display = TradeDisplay::Show(self.matching_offers[self.display_index]);
            } else {
                self.cycle_counter = self.cycle_counter + 1;
            }
        }
        TradeTick { display, look_at_player: self.is_showing }
    }
}

/// Every index the filter keeps is below `n`.
pub proof fn lemma_matching_in_bounds(offers: Seq<TradeOffer>, id: u16, n: int)
    requires
        n <= offers.len() <= usize::MAX,
    ensures
        forall|i: int|
            0 <= i < spec_matching(offers, id, n).len() ==> #[trigger] spec_matching(
                offers,
                id,
                n,
            )[i] < n,
    decreases n,
{
    if n > 0 {
        lemma_matching_in_bounds(offers, id, n - 1);
        let prev = spec_matching(offers, id, n - 1);
        if offer_matches(offers[n - 1], id) {
            assert forall|i: int| 0 <= i < prev.len() + 1 implies #[trigger] prev.push(
                (n - 1) as usize,
            )[i] < n by {
                if i < prev.len() {
                    assert(prev[i] < n - 1);
                }
            }
        }
    }
}

} // verus!
