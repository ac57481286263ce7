use pumpkin::enchanting::{EnchantingTableBlock, MAX_BOOKSHELVES};
use pumpkin::geometry::BlockPos;
use pumpkin::item::Item;
use pumpkin::item_use::{BoneMealItem, BoneMealUse, Hand, WindChargeItem, WindChargeThrow, WIND_CHARGE_COOLDOWN};
use pumpkin::world::{Block, BlockWorld};

#[test]
fn bookshelves_in_the_ring_count() {
    let mut w = BlockWorld::new();
    let t = BlockPos::new(0, 64, 0);
    assert_eq!(EnchantingTableBlock::bookshelf_count(&w, &t), 0);
    w.set_block(BlockPos::new(2, 64, 0), Block::Bookshelf);
    w.set_block(BlockPos::new(-2, 65, 1), Block::Bookshelf);
    // not on the ring
    w.set_block(BlockPos::new(1, 64, 1), Block::Bookshelf);
    assert_eq!(EnchantingTableBlock::bookshelf_count(&w, &t), 2);
    assert!(EnchantingTableBlock::is_valid_bookshelf(&w, &t, 2, 0, 0));
    // a block in between stops the power
    w.set_block(BlockPos::new(1, 64, 0), Block::Stone);
    assert!(!EnchantingTableBlock::is_valid_bookshelf(&w, &t, 2, 0, 0));
    assert_eq!(EnchantingTableBlock::bookshelf_count(&w, &t), 1);
    // water lets it through
    w.set_block(BlockPos::new(1, 64, 0), Block::Water);
    assert_eq!(EnchantingTableBlock::bookshelf_count(&w, &t), 2);
}

#[test]
fn bookshelves_are_capped_at_fifteen() {
    let mut w = BlockWorld::new();
    let t = BlockPos::new(0, 64, 0);
    for dx in -2..=2 {
        for dz in -2..=2 {
            if dx == 2 || dx == -2 || dz == 2 || dz == -2 {
                w.set_block(BlockPos::new(dx, 64, dz), Block::Bookshelf);
                w.set_block(BlockPos::new(dx, 65, dz), Block::Bookshelf);
            }
        }
    }
    assert_eq!(EnchantingTableBlock::bookshelf_count(&w, &t), MAX_BOOKSHELVES);
    let f = EnchantingTableBlock::get_screen_handler_factory(&w, &t, 1234);
    assert_eq!((f.bookshelf_count, f.seed), (15, 1234));
    assert!(EnchantingTableBlock::normal_use());
    assert!(!EnchantingTableBlock::is_pathfindable());
}

#[test]
fn bone_meal_is_used_when_it_works() {
    assert_eq!(BoneMealItem::use_on_block(true, false), BoneMealUse { effects: true, consume: true });
    assert_eq!(BoneMealItem::use_on_block(true, true), BoneMealUse { effects: true, consume: false });
    assert_eq!(BoneMealItem::use_on_block(false, false), BoneMealUse { effects: false, consume: false });
}

#[test]
fn wind_charge_throw_hands() {
    assert_eq!(WIND_CHARGE_COOLDOWN, 10);
    assert_eq!(
        WindChargeItem::normal_use(true, Some(Item::WindCharge), None),
        WindChargeThrow { thrown: false, taken_from: None }
    );
    assert_eq!(
        WindChargeItem::normal_use(false, Some(Item::WindCharge), Some(Item::WindCharge)),
        WindChargeThrow { thrown: true, taken_from: Some(Hand::Main) }
    );
    assert_eq!(
        WindChargeItem::normal_use(false, Some(Item::Diamond), Some(Item::WindCharge)),
        WindChargeThrow { thrown: true, taken_from: Some(Hand::Off) }
    );
    assert_eq!(
        WindChargeItem::normal_use(false, None, None),
        WindChargeThrow { thrown: true, taken_from: None }
    );
}
