//! Definition of `minecraft:piglin_brute`: its identifier, spawn flags, component groups and events.
use vstd::prelude::*;

verus! {

/// Entity definition for `minecraft:piglin_brute`
pub struct PiglinBrute;
impl PiglinBrute {
    /// The entity identifier
    pub const IDENTIFIER: &'static str = "minecraft:piglin_brute";
    /// Whether this entity can spawn naturally
    pub const IS_SPAWNABLE: bool = true;
    /// Whether this entity can be summoned via commands
    pub const IS_SUMMONABLE: bool = true;
}

/// Component groups for this entity
#[derive(Debug, Clone, Copy, PartialEq, Eq, Hash)]
pub enum PiglinBruteComponentGroup {
    AlertForAttackTargets,
    Angry,
    BecomeZombie,
    GoBackToSpawn,
    MeleeUnit,
    StartZombification,
    TakeTargetAsResponseToBlockBreak,
    ZombificationSensor,
}
/// Events for this entity
#[derive(Debug, Clone, Copy, PartialEq, Eq, Hash)]
pub enum PiglinBruteEvent {
    BecomeAngryEvent,
    BecomeCalmEvent,
    BecomeZombieEvent,
    GoBackToSpawnFailed,
    ImportantBlockDestroyedEvent,
    EntitySpawned,
    StartZombificationEvent,
    StopZombificationEvent,
}

} // verus!
