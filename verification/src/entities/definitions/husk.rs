//! Definition of `minecraft:husk`: its identifier, spawn flags, component groups and events.
use vstd::prelude::*;

verus! {

/// Entity definition for `minecraft:husk`
pub struct Husk;
impl Husk {
    /// The entity identifier
    pub const IDENTIFIER: &'static str = "minecraft:husk";
    /// Whether this entity can spawn naturally
    pub const IS_SPAWNABLE: bool = true;
    /// Whether this entity can be summoned via commands
    pub const IS_SUMMONABLE: bool = true;
}

/// Component groups for this entity
#[derive(Debug, Clone, Copy, PartialEq, Eq, Hash)]
pub enum HuskComponentGroup {
    CanBreakDoors,
    ConvertToBabyZombie,
    ConvertToZombie,
    LookToStartZombieTransformation,
    NotOnCamelHusk,
    OnCamelHusk,
    StartZombieTransformation,
    ZombieHuskAdult,
    ZombieHuskBaby,
    ZombieHuskJockey,
    ZombieHuskRider,
}
/// Events for this entity
#[derive(Debug, Clone, Copy, PartialEq, Eq, Hash)]
pub enum HuskEvent {
    AsAdult,
    AsBaby,
    AsBabyJockey,
    ConvertToZombie,
    EntitySpawned,
    OnStartRidingCamelHusk,
    OnStopRidingCamelHusk,
    SpawnAsRider,
    StartTransforming,
    StopTransforming,
}

} // verus!
