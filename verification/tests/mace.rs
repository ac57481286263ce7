use pumpkin::mace::{Enchantment, MaceItem};

#[test]
fn test_mace_enchantment_compatibility() {
    assert!(MaceItem::is_enchantment_allowed(Enchantment::Density));
    assert!(MaceItem::is_enchantment_allowed(Enchantment::Breach));
    assert!(MaceItem::is_enchantment_allowed(Enchantment::WindBurst));
    assert!(MaceItem::is_enchantment_allowed(Enchantment::Unbreaking));
    assert!(MaceItem::is_enchantment_allowed(Enchantment::Mending));
    assert!(MaceItem::is_enchantment_allowed(Enchantment::VanishingCurse));

    assert!(!MaceItem::is_enchantment_allowed(Enchantment::Sharpness));
    assert!(!MaceItem::is_enchantment_allowed(Enchantment::Smite));
    assert!(!MaceItem::is_enchantment_allowed(Enchantment::BaneOfArthropods));
    assert!(!MaceItem::is_enchantment_allowed(Enchantment::FireAspect));
    assert!(!MaceItem::is_enchantment_allowed(Enchantment::Looting));
    assert!(!MaceItem::is_enchantment_allowed(Enchantment::SweepingEdge));
    assert!(!MaceItem::is_enchantment_allowed(Enchantment::Knockback));
    assert!(!MaceItem::is_enchantment_allowed(Enchantment::Impaling));

    assert!(!MaceItem::are_enchantments_compatible(Enchantment::Density, Enchantment::Breach));
    assert!(!MaceItem::are_enchantments_compatible(Enchantment::Breach, Enchantment::Density));
    assert!(!MaceItem::are_enchantments_compatible(Enchantment::Density, Enchantment::Sharpness));
    assert!(!MaceItem::are_enchantments_compatible(Enchantment::Breach, Enchantment::Smite));

    assert!(MaceItem::are_enchantments_compatible(Enchantment::WindBurst, Enchantment::Density));
    assert!(MaceItem::are_enchantments_compatible(Enchantment::Density, Enchantment::WindBurst));
    assert!(MaceItem::are_enchantments_compatible(Enchantment::WindBurst, Enchantment::Breach));
    assert!(MaceItem::are_enchantments_compatible(Enchantment::Breach, Enchantment::WindBurst));
    assert!(MaceItem::are_enchantments_compatible(Enchantment::WindBurst, Enchantment::Unbreaking));
}

#[test]
fn an_enchantment_is_compatible_with_itself_on_a_mace() {
    assert!(MaceItem::are_enchantments_compatible(Enchantment::Density, Enchantment::Density));
}

#[test]
fn infinity_and_mending_clash() {
    assert!(!MaceItem::are_enchantments_compatible(Enchantment::Infinity, Enchantment::Mending));
    assert!(!MaceItem::are_enchantments_compatible(Enchantment::Mending, Enchantment::Infinity));
}
