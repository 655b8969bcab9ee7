//! Definition of `minecraft:strider`: its identifier, spawn flags, component groups and events.
use vstd::prelude::*;

verus! {

/// Entity definition for `minecraft:strider`
pub struct Strider;
impl Strider {
    /// The entity identifier
    pub const IDENTIFIER: &'static str = "minecraft:strider";
    /// Whether this entity can spawn naturally
    pub const IS_SPAWNABLE: bool = true;
    /// Whether this entity can be summoned via commands
    pub const IS_SUMMONABLE: bool = true;
}

/// Component groups for this entity
#[derive(Debug, Clone, Copy, PartialEq, Eq, Hash)]
pub enum StriderComponentGroup {
    DetectSuffocating,
    StartSuffocating,
    StriderAdult,
    StriderBaby,
    StriderParentJockey,
    StriderPathingBehaviors,
    StriderPiglinJockey,
    StriderSaddled,
    StriderUnsaddled,
}
/// Events for this entity
#[derive(Debug, Clone, Copy, PartialEq, Eq, Hash)]
pub enum StriderEvent {
    AgeableGrowUp,
    EntityBorn,
    EntitySpawned,
    OnSaddled,
    OnUnsaddled,
    SpawnBabyStriderJockey,
    OnNotRidingParent,
    SpawnAdult,
    SpawnAdultParentJockey,
    SpawnAdultPiglinJockey,
    SpawnBaby,
    StartSuffocating,
    StopSuffocating,
}

} // verus!
