//! Definition of `minecraft:frog`: its identifier, spawn flags, component groups and events.
use vstd::prelude::*;

verus! {

/// Entity definition for `minecraft:frog`
pub struct Frog;
impl Frog {
    /// The entity identifier
    pub const IDENTIFIER: &'static str = "minecraft:frog";
    /// Whether this entity can spawn naturally
    pub const IS_SPAWNABLE: bool = true;
    /// Whether this entity can be summoned via commands
    pub const IS_SUMMONABLE: bool = true;
}

/// Component groups for this entity
#[derive(Debug, Clone, Copy, PartialEq, Eq, Hash)]
pub enum FrogComponentGroup {
    ColdFrog,
    Pregnant,
    TemperateFrog,
    WarmFrog,
}
/// Events for this entity
#[derive(Debug, Clone, Copy, PartialEq, Eq, Hash)]
pub enum FrogEvent {
    BecomePregnant,
    LaidEgg,
    EntitySpawned,
    EntityTransformed,
    SpawnCold,
    SpawnTemperate,
    SpawnWarm,
}

} // verus!
