use vstd::prelude::*;

verus! {

/// The enchantments the mace rules speak of.
#[derive(Clone, Copy, Debug, PartialEq, Eq, Structural)]
pub enum Enchantment {
    Density,
    Breach,
    WindBurst,
    Unbreaking,
    Mending,
    VanishingCurse,
    Sharpness,
    Smite,
    BaneOfArthropods,
    FireAspect,
    Looting,
    SweepingEdge,
    Knockback,
    Impaling,
    Infinity,
}

pub open spec fn spec_is_damage_enchantment(e: Enchantment) -> bool {
    e == Enchantment::Density || e == Enchantment::Breach || e == Enchantment::Sharpness || e
        == Enchantment::Smite || e == Enchantment::BaneOfArthropods || e == Enchantment::Impaling
}

/// The game's general rule: two different enchantments clash when they share
/// an exclusive set (the damage set, or infinity with mending).
pub open spec fn spec_are_compatible(a: Enchantment, b: Enchantment) -> bool {
    if a == b {
        false
    } else if spec_is_damage_enchantment(a) && spec_is_damage_enchantment(b) {
        false
    } else {
        !((a == Enchantment::Infinity && b == Enchantment::Mending) || (a == Enchantment::Mending
            && b == Enchantment::Infinity))
    }
}

/// Whether two enchantments can sit on one mace.
pub open spec fn spec_mace_compatible(a: Enchantment, b: Enchantment) -> bool {
    if a == b {
        true
    } else if spec_is_damage_enchantment(a) && spec_is_damage_enchantment(b) {
        false
    } else {
        spec_are_compatible(a, b)
    }
}

pub open spec fn spec_mace_allowed(e: Enchantment) -> bool {
    e == Enchantment::Density || e == Enchantment::Breach || e == Enchantment::WindBurst || e
        == Enchantment::Unbreaking || e == Enchantment::Mending || e == Enchantment::VanishingCurse
}

impl Enchantment {
    /// The game's general compatibility rule.
    pub fn are_compatible(self, other: Enchantment) -> (r: bool)
        ensures
            r == spec_are_compatible(self, other),
    {
        if self == other {
            return false;
        }
        if is_damage_enchantment(self) && is_damage_enchantment(other) {
            return false;
        }
        !((self == Enchantment::Infinity && other == Enchantment::Mending) || (self
            == Enchantment::Mending && other == Enchantment::Infinity))
    }
}

fn is_damage_enchantment(e: Enchantment) -> (r: bool)
    ensures
        r == spec_is_damage_enchantment(e),
{
    e == Enchantment::Density || e == Enchantment::Breach || e == Enchantment::Sharpness || e
        == Enchantment::Smite || e == Enchantment::BaneOfArthropods || e == Enchantment::Impaling
}

pub struct MaceItem;

impl MaceItem {
    /// Only density, breach, wind burst, unbreaking, mending and the curse of
    /// vanishing go on a mace.
    pub fn is_enchantment_allowed(enchantment: Enchantment) -> (r: bool)
        ensures
            r == spec_mace_allowed(enchantment),
    {
        if enchantment == Enchantment::Density || enchantment == Enchantment::Breach || enchantment
            == Enchantment::WindBurst || enchantment == Enchantment::Unbreaking || enchantment
            == Enchantment::Mending || enchantment == Enchantment::VanishingCurse {
            return true;
        }
        false
    }

    /// Whether two enchantments can sit on one mace: an enchantment goes with
    /// itself, two damage enchantments never go together, else the general
    /// rule decides.
    pub fn are_enchantments_compatible(a: Enchantment, b: Enchantment) -> (r: bool)
        ensures
            r == spec_mace_compatible(a, b),
    {
        if a == b {
            return true;
        }
        if is_damage_enchantment(a) && is_damage_enchantment(b) {
            return false;
        }
        a.are_compatible(b)
    }
}

/// Compatibility on a mace does not depend on the order of the two.
pub proof fn law_mace_compatibility_symmetric(a: Enchantment, b: Enchantment)
    ensures
        spec_mace_compatible(a, b) == spec_mace_compatible(b, a),
{
}

} // verus!
