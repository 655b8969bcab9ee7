//! Definition of `minecraft:iron_golem`: its identifier, spawn flags, component groups and events.
use vstd::prelude::*;

verus! {

/// Entity definition for `minecraft:iron_golem`
pub struct IronGolem;
impl IronGolem {
    /// The entity identifier
    pub const IDENTIFIER: &'static str = "minecraft:iron_golem";
    /// Whether this entity can spawn naturally
    pub const IS_SPAWNABLE: bool = true;
    /// Whether this entity can be summoned via commands
    pub const IS_SUMMONABLE: bool = true;
}

/// Component groups for this entity
#[derive(Debug, Clone, Copy, PartialEq, Eq, Hash)]
pub enum IronGolemComponentGroup {
    PlayerCreated,
    VillageCreated,
}
/// Events for this entity
#[derive(Debug, Clone, Copy, PartialEq, Eq, Hash)]
pub enum IronGolemEvent {
    FromPlayer,
    FromVillage,
}

} // verus!
