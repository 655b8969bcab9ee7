//! Definition of `minecraft:mule`: its identifier, spawn flags, component groups and events.
use vstd::prelude::*;

verus! {

/// Entity definition for `minecraft:mule`
pub struct Mule;
impl Mule {
    /// The entity identifier
    pub const IDENTIFIER: &'static str = "minecraft:mule";
    /// Whether this entity can spawn naturally
    pub const IS_SPAWNABLE: bool = true;
    /// Whether this entity can be summoned via commands
    pub const IS_SUMMONABLE: bool = true;
}

/// Component groups for this entity
#[derive(Debug, Clone, Copy, PartialEq, Eq, Hash)]
pub enum MuleComponentGroup {
    MuleAdult,
    MuleBaby,
    MuleChested,
    MuleSaddled,
    MuleTamed,
    MuleUnchested,
    MuleWild,
}
/// Events for this entity
#[derive(Debug, Clone, Copy, PartialEq, Eq, Hash)]
pub enum MuleEvent {
    AgeableGrowUp,
    EntityBorn,
    EntitySpawned,
    MuleSaddled,
    MuleUnsaddled,
    OnChest,
    OnTame,
    SpawnAdult,
    SpawnTameAdult,
}

} // verus!
