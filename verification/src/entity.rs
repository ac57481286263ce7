use vstd::prelude::*;

verus! {

/// The part of a game entity that the rules here read: its network id and its
/// age in ticks (negative while a baby).
#[derive(Clone, Copy, Debug, PartialEq, Eq, Structural)]
pub struct Entity {
    pub entity_id: i32,
    pub age: i32,
}

/// The kinds of entity whose identity the rules look at; every other kind is
/// `Other` with its numeric id.
#[derive(Clone, Copy, Debug, PartialEq, Eq, Structural)]
pub enum EntityKind {
    Player,
    IronGolem,
    Breeze,
    Bogged,
    Stray,
    Skeleton,
    Other(u16),
}

/// The difficulty of a world.
#[derive(Clone, Copy, Debug, PartialEq, Eq, Structural)]
pub enum Difficulty {
    Peaceful,
    Easy,
    Normal,
    Hard,
}

impl Entity {
    /// A freshly spawned, grown-up entity with the given id.
    pub fn new(entity_id: i32) -> (r: Entity)
        ensures
            r.entity_id == entity_id,
            r.age == 0,
    {
        Entity { entity_id, age: 0 }
    }
}

/// The goal scheduler runs most goals every other tick, so a delay in server
/// ticks counts half as many goal ticks, rounded up.
pub fn to_goal_ticks(server_ticks: i32) -> (r: i32)
    requires
        server_ticks >= 0,
    ensures
        r == (server_ticks + 1) / 2,
{
    server_ticks / 2 + server_ticks % 2
}

} // verus!
