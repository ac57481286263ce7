use pumpkin::geometry::BlockPos;
use pumpkin::item::Item;
use pumpkin::shulker_box::{ShulkerBoxBlockEntity, Stack, SHULKER_BOX_ID};

#[test]
fn test_shulker_box_component_preservation_round_trip() {
    let pos = BlockPos::new(10, 64, 20);
    let mut shulker = ShulkerBoxBlockEntity::new(pos);

    shulker.set_stack(3, Stack { item: Item::Diamond, count: 64 });
    shulker.set_stack(17, Stack { item: Item::Emerald, count: 12 });

    assert!(!shulker.is_empty());

    let dropped = shulker.apply_to_item_stack();
    let (container, id) = dropped.expect("ContainerImpl component must be attached");
    assert_eq!(container.len(), 2);
    assert_eq!(container[0].0, 3);
    assert_eq!(container[0].1.item, Item::Diamond);
    assert_eq!(container[0].1.count, 64);
    assert_eq!(container[1].0, 17);
    assert_eq!(container[1].1.item, Item::Emerald);
    assert_eq!(container[1].1.count, 12);

    assert_eq!(id, "minecraft:shulker_box");

    let new_pos = BlockPos::new(15, 65, 25);
    let mut placed = ShulkerBoxBlockEntity::new(new_pos);
    assert!(placed.is_empty());

    placed.load_from_item_stack(Some(&container), None);
    assert!(!placed.is_empty());

    let stack3 = placed.get_stack(3);
    assert_eq!(stack3.item, Item::Diamond);
    assert_eq!(stack3.count, 64);

    let stack17 = placed.get_stack(17);
    assert_eq!(stack17.item, Item::Emerald);
    assert_eq!(stack17.count, 12);

    assert!(placed.get_stack(0).is_empty());
    assert!(placed.get_stack(2).is_empty());
    assert!(placed.get_stack(4).is_empty());
}

#[test]
fn empty_box_gives_its_item_nothing() {
    let shulker = ShulkerBoxBlockEntity::new(BlockPos::new(0, 0, 0));
    assert!(shulker.apply_to_item_stack().is_none());
    assert_eq!(SHULKER_BOX_ID, "minecraft:shulker_box");
}

#[test]
fn remove_specific_splits_a_stack() {
    let mut shulker = ShulkerBoxBlockEntity::new(BlockPos::new(0, 0, 0));
    shulker.set_stack(5, Stack { item: Item::Diamond, count: 10 });
    let taken = shulker.remove_stack_specific(5, 4);
    assert_eq!(taken.count, 4);
    assert_eq!(taken.item, Item::Diamond);
    assert_eq!(shulker.get_stack(5).count, 6);
    let rest = shulker.remove_stack(5);
    assert_eq!(rest.count, 6);
    assert!(shulker.get_stack(5).is_empty());
    assert!(shulker.is_empty());
}

#[test]
fn block_entity_data_is_read_when_no_container() {
    let mut shulker = ShulkerBoxBlockEntity::new(BlockPos::new(0, 0, 0));
    let items = vec![(1u8, Stack { item: Item::Emerald, count: 2 })];
    shulker.load_from_item_stack(None, Some(&items));
    assert_eq!(shulker.get_stack(1).item, Item::Emerald);
    assert_eq!(shulker.get_stack(1).count, 2);
}
