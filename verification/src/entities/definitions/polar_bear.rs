//! Definition of `minecraft:polar_bear`: its identifier, spawn flags, component groups and events.
use vstd::prelude::*;

verus! {

/// Entity definition for `minecraft:polar_bear`
pub struct PolarBear;
impl PolarBear {
    /// The entity identifier
    pub const IDENTIFIER: &'static str = "minecraft:polar_bear";
    /// Whether this entity can spawn naturally
    pub const IS_SPAWNABLE: bool = true;
    /// Whether this entity can be summoned via commands
    pub const IS_SUMMONABLE: bool = true;
}

/// Component groups for this entity
#[derive(Debug, Clone, Copy, PartialEq, Eq, Hash)]
pub enum PolarBearComponentGroup {
    Adult,
    AdultHostile,
    AdultWild,
    Baby,
    BabyScared,
    BabyWild,
}
/// Events for this entity
#[derive(Debug, Clone, Copy, PartialEq, Eq, Hash)]
pub enum PolarBearEvent {
    AgeableGrowUp,
    BabyOnCalm,
    EntityBorn,
    EntitySpawned,
    OnAnger,
    OnCalm,
    OnScared,
}

} // verus!
