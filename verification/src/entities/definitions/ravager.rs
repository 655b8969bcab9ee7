//! Definition of `minecraft:ravager`: its identifier, spawn flags, component groups and events.
use vstd::prelude::*;

verus! {

/// Entity definition for `minecraft:ravager`
pub struct Ravager;
impl Ravager {
    /// The entity identifier
    pub const IDENTIFIER: &'static str = "minecraft:ravager";
    /// Whether this entity can spawn naturally
    pub const IS_SPAWNABLE: bool = true;
    /// Whether this entity can be summoned via commands
    pub const IS_SUMMONABLE: bool = true;
}

/// Component groups for this entity
#[derive(Debug, Clone, Copy, PartialEq, Eq, Hash)]
pub enum RavagerComponentGroup {
    Celebrate,
    EvokerRiderForRaid,
    Hostile,
    PillagerCaptainRider,
    PillagerRider,
    PillagerRiderForRaid,
    RaidConfiguration,
    RaidPersistence,
    VindicatorCaptainRider,
    VindicatorRider,
    Roaring,
    Stunned,
}
/// Events for this entity
#[derive(Debug, Clone, Copy, PartialEq, Eq, Hash)]
pub enum RavagerEvent {
    BecomeStunned,
    EndRoar,
    EntitySpawned,
    RaidExpired,
    SpawnForRaid,
    SpawnForRaidWithEvokerRider,
    SpawnForRaidWithPillagerRider,
    SpawnWithPillagerCaptainRider,
    SpawnWithPillagerRider,
    SpawnWithVindicatorCaptainRider,
    SpawnWithVindicatorRider,
    StartCelebrating,
    StartRoar,
    StopCelebrating,
}

} // verus!
