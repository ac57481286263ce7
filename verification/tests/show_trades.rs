use pumpkin::show_trades::{ShowTradesToPlayerGoal, TradeDisplay, TradeOffer};

fn offers() -> Vec<TradeOffer> {
    vec![
        TradeOffer { cost_a: 1, cost_b: None, out_of_stock: false },
        TradeOffer { cost_a: 2, cost_b: Some(1), out_of_stock: false },
        TradeOffer { cost_a: 1, cost_b: None, out_of_stock: true },
        TradeOffer { cost_a: 3, cost_b: None, out_of_stock: false },
        TradeOffer { cost_a: 1, cost_b: Some(5), out_of_stock: false },
    ]
}

#[test]
fn matching_keeps_offer_order_and_skips_out_of_stock() {
    let o = offers();
    assert_eq!(ShowTradesToPlayerGoal::matching_offers_for(&o, 1), vec![0, 1, 4]);
    assert_eq!(ShowTradesToPlayerGoal::matching_offers_for(&o, 3), vec![3]);
    assert_eq!(ShowTradesToPlayerGoal::matching_offers_for(&o, 9), Vec::<usize>::new());
}

#[test]
fn shows_and_cycles_every_40_ticks() {
    let o = offers();
    let mut g = ShowTradesToPlayerGoal::new();
    let t = g.tick(&o, true, Some(1));
    assert_eq!(t.display, TradeDisplay::Show(0));
    assert!(t.look_at_player);
    let mut shown = vec![];
    for _ in 0..120 {
        let t = g.tick(&o, true, Some(1));
        if let TradeDisplay::Show(i) = t.display {
            shown.push(i);
        }
    }
    assert_eq!(shown, vec![1, 4, 0]);
}

#[test]
fn single_offer_does_not_cycle() {
    let o = offers();
    let mut g = ShowTradesToPlayerGoal::new();
    assert_eq!(g.tick(&o, true, Some(3)).display, TradeDisplay::Show(3));
    for _ in 0..100 {
        assert_eq!(g.tick(&o, true, Some(3)).display, TradeDisplay::Keep);
    }
}

#[test]
fn empty_hand_or_baby_clears() {
    let o = offers();
    let mut g = ShowTradesToPlayerGoal::new();
    g.tick(&o, true, Some(1));
    let t = g.tick(&o, true, None);
    assert_eq!(t.display, TradeDisplay::Clear);
    assert!(!t.look_at_player);
    assert_eq!(g.tick(&o, true, None).display, TradeDisplay::Keep);
    g.tick(&o, true, Some(1));
    assert_eq!(g.tick(&o, false, Some(1)).display, TradeDisplay::Clear);
    g.tick(&o, true, Some(1));
    // switching to an item nothing takes clears too
    assert_eq!(g.tick(&o, true, Some(9)).display, TradeDisplay::Clear);
    g.tick(&o, true, Some(1));
    assert!(g.stop());
    assert!(!g.stop());
}

#[test]
fn start_conditions() {
    assert!(ShowTradesToPlayerGoal::can_start(true, 0, true));
    assert!(!ShowTradesToPlayerGoal::can_start(true, -1, true));
    assert!(!ShowTradesToPlayerGoal::should_continue(true, 5, false));
}
