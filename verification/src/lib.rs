//! Game rules of a Minecraft server, stated and proved with Verus.
pub mod geometry;
pub mod world;
pub mod piston;
pub mod redstone_torch;
pub mod entity;
mod rng;
pub mod zombie;
pub mod skeleton;
pub mod fish;
pub mod warden;
pub mod item;
pub mod text;
pub mod parrot;
pub mod mace;
pub mod cushion;
pub mod teleport;
pub mod blaze;
pub mod experience_orb;
pub mod projectile;
pub mod golem;
pub mod blocks;
pub mod potent_sulfur;
pub mod plant;
pub mod breeze;
pub mod bow_attack;
pub mod show_trades;
pub mod sulfur_cube;
pub mod phantom;
pub mod sulfur_spike;
pub mod enchanting;
pub mod farm;
pub mod item_use;
pub mod vex;
pub mod allay;
pub mod zombie_villager;
pub mod camel;
pub mod goals;
pub mod shulker_box;
pub mod commands;
