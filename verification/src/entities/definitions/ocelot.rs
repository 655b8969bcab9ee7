//! Definition of `minecraft:ocelot`: its identifier, spawn flags, component groups and events.
use vstd::prelude::*;

verus! {

/// Entity definition for `minecraft:ocelot`
pub struct Ocelot;
impl Ocelot {
    /// The entity identifier
    pub const IDENTIFIER: &'static str = "minecraft:ocelot";
    /// Whether this entity can spawn naturally
    pub const IS_SPAWNABLE: bool = true;
    /// Whether this entity can be summoned via commands
    pub const IS_SUMMONABLE: bool = true;
}

/// Component groups for this entity
#[derive(Debug, Clone, Copy, PartialEq, Eq, Hash)]
pub enum OcelotComponentGroup {
    OcelotAdult,
    OcelotBaby,
    OcelotTame,
    OcelotTrusting,
    OcelotWild,
    WildChildOcelotSpawn,
}
/// Events for this entity
#[derive(Debug, Clone, Copy, PartialEq, Eq, Hash)]
pub enum OcelotEvent {
    AgeableGrowUp,
    EntityBorn,
    EntityBornWild,
    EntitySpawned,
    OnLeash,
    OnTrust,
    OnUnleash,
}

} // verus!
