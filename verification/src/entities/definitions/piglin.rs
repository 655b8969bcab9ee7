//! Definition of `minecraft:piglin`: its identifier, spawn flags, component groups and events.
use vstd::prelude::*;

verus! {

/// Entity definition for `minecraft:piglin`
pub struct Piglin;
impl Piglin {
    /// The entity identifier
    pub const IDENTIFIER: &'static str = "minecraft:piglin";
    /// Whether this entity can spawn naturally
    pub const IS_SPAWNABLE: bool = true;
    /// Whether this entity can be summoned via commands
    pub const IS_SUMMONABLE: bool = true;
}

/// Component groups for this entity
#[derive(Debug, Clone, Copy, PartialEq, Eq, Hash)]
pub enum PiglinComponentGroup {
    AlertForAttackTargets,
    Angry,
    AttackCooldown,
    BecomeZombie,
    Hunter,
    InteractablePiglin,
    MeleeUnit,
    NotHunter,
    PiglinAdult,
    PiglinBaby,
    PiglinJockey,
    RangedUnit,
    StartZombification,
    TakeTargetAsResponseToBlockBreak,
    ZombificationSensor,
}
/// Events for this entity
#[derive(Debug, Clone, Copy, PartialEq, Eq, Hash)]
pub enum PiglinEvent {
    AdmireItemStartedEvent,
    AdmireItemStoppedEvent,
    AttackCooldownCompleteEvent,
    BecomeAngryEvent,
    BecomeCalmEvent,
    BecomeZombieEvent,
    ImportantBlockDestroyedEvent,
    EntityBorn,
    EntitySpawned,
    SpawnAdult,
    SpawnAdultMelee,
    SpawnAdultMeleeNoHunting,
    SpawnAdultNoHunting,
    SpawnAdultRanged,
    SpawnAdultRangedNoHunting,
    SpawnBaby,
    StartZombificationEvent,
    StopZombificationEvent,
}

} // verus!
