//! Definition of `minecraft:nautilus`: its identifier, spawn flags, component groups and events.
use vstd::prelude::*;

verus! {

/// Entity definition for `minecraft:nautilus`
pub struct Nautilus;
impl Nautilus {
    /// The entity identifier
    pub const IDENTIFIER: &'static str = "minecraft:nautilus";
    /// Whether this entity can spawn naturally
    pub const IS_SPAWNABLE: bool = true;
    /// Whether this entity can be summoned via commands
    pub const IS_SUMMONABLE: bool = true;
}

/// Component groups for this entity
#[derive(Debug, Clone, Copy, PartialEq, Eq, Hash)]
pub enum NautilusComponentGroup {
    NautilusAdult,
    NautilusAiControlled,
    NautilusBaby,
    NautilusCharging,
    NautilusLeashable,
    NautilusPlayerControlled,
    NautilusTame,
    NautilusTameAdult,
    NautilusTameSaddled,
    NautilusTameSaddledInWater,
    NautilusTameSaddledOnGround,
    NautilusTameUnsaddled,
    NautilusWildAdultAngry,
    NautilusWildAdultCalm,
}
/// Events for this entity
#[derive(Debug, Clone, Copy, PartialEq, Eq, Hash)]
pub enum NautilusEvent {
    AgeableGrowUp,
    BecomeAngry,
    EntityBorn,
    EntitySpawned,
    OnCalm,
    OnDismount,
    OnMount,
    OnSaddled,
    OnSaddledInWater,
    OnSaddledOutOfWater,
    OnStopTempting,
    OnTame,
    OnUnleashed,
    OnUnsaddled,
    SpawnTameBaby,
    SpawnWildAdult,
    SpawnWildBaby,
    StartCharge,
    StopCharge,
    SwitchToAiControlled,
    SwitchToPlayerControlled,
}

} // verus!
