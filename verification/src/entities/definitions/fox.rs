//! Definition of `minecraft:fox`: its identifier, spawn flags, component groups and events.
use vstd::prelude::*;

verus! {

/// Entity definition for `minecraft:fox`
pub struct Fox;
impl Fox {
    /// The entity identifier
    pub const IDENTIFIER: &'static str = "minecraft:fox";
    /// Whether this entity can spawn naturally
    pub const IS_SPAWNABLE: bool = true;
    /// Whether this entity can be summoned via commands
    pub const IS_SUMMONABLE: bool = true;
}

/// Component groups for this entity
#[derive(Debug, Clone, Copy, PartialEq, Eq, Hash)]
pub enum FoxComponentGroup {
    DefendingFox,
    DocileFox,
    FoxAdult,
    FoxAmbientDefendingTarget,
    FoxAmbientNight,
    FoxAmbientNormal,
    FoxAmbientSleep,
    FoxArctic,
    FoxBaby,
    FoxDay,
    FoxNight,
    FoxRed,
    FoxThunderstorm,
    FoxWithItem,
    TrustingFox,
}
/// Events for this entity
#[derive(Debug, Clone, Copy, PartialEq, Eq, Hash)]
pub enum FoxEvent {
    AgeableGrowUp,
    AmbientNight,
    AmbientNormal,
    AmbientSleep,
    EntityBorn,
    EntitySpawned,
    FoxConfigureDay,
    FoxConfigureDefending,
    FoxConfigureDocileDay,
    FoxConfigureDocileNight,
    FoxConfigureNight,
    FoxConfigureThunderstorm,
}

} // verus!
