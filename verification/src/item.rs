use vstd::prelude::*;

verus! {

/// The items whose identity the rules of this library look at.  Every other
/// item is `Other` with its numeric id.
#[derive(Clone, Copy, Debug, PartialEq, Eq, Structural)]
pub enum Item {
    Air,
    Cookie,
    WheatSeeds,
    MelonSeeds,
    PumpkinSeeds,
    BeetrootSeeds,
    TorchflowerSeeds,
    PitcherPod,
    CookedChicken,
    WaterBucket,
    Shears,
    IronIngot,
    FlintAndSteel,
    FireCharge,
    Bucket,
    SlimeBall,
    Saddle,
    Carrot,
    Potato,
    Beetroot,
    CarrotOnAStick,
    Wheat,
    BoneMeal,
    WindCharge,
    AmethystShard,
    GoldenApple,
    Cactus,
    Diamond,
    Emerald,
    ShulkerBox,
    Other(u16),
}

} // verus!
