//! Definition of `minecraft:happy_ghast`: its identifier, spawn flags, component groups and events.
use vstd::prelude::*;

verus! {

/// Entity definition for `minecraft:happy_ghast`
pub struct HappyGhast;
impl HappyGhast {
    /// The entity identifier
    pub const IDENTIFIER: &'static str = "minecraft:happy_ghast";
    /// Whether this entity can spawn naturally
    pub const IS_SPAWNABLE: bool = true;
    /// Whether this entity can be summoned via commands
    pub const IS_SUMMONABLE: bool = true;
}

/// Component groups for this entity
#[derive(Debug, Clone, Copy, PartialEq, Eq, Hash)]
pub enum HappyGhastComponentGroup {
    Adult,
    AdultHarnessed,
    AdultImmobile,
    AdultMobile,
    AdultUnharnessed,
    AdultWithPassengers,
    AdultWithoutPassengers,
    Baby,
}
/// Events for this entity
#[derive(Debug, Clone, Copy, PartialEq, Eq, Hash)]
pub enum HappyGhastEvent {
    AgeableGrowUp,
    BecomeImmobile,
    BecomeMobile,
    EntitySpawned,
    OnHarnessed,
    OnPassengerDismount,
    OnPassengerMount,
    OnStopTempting,
    OnUnharnessed,
    OnUnleashed,
    SpawnAdult,
    SpawnBaby,
}

} // verus!
