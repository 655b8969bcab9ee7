//! Definition of `minecraft:hoglin`: its identifier, spawn flags, component groups and events.
use vstd::prelude::*;

verus! {

/// Entity definition for `minecraft:hoglin`
pub struct Hoglin;
impl Hoglin {
    /// The entity identifier
    pub const IDENTIFIER: &'static str = "minecraft:hoglin";
    /// Whether this entity can spawn naturally
    pub const IS_SPAWNABLE: bool = true;
    /// Whether this entity can be summoned via commands
    pub const IS_SUMMONABLE: bool = true;
}

/// Component groups for this entity
#[derive(Debug, Clone, Copy, PartialEq, Eq, Hash)]
pub enum HoglinComponentGroup {
    AngryHoglin,
    AttackCooldown,
    BecomeZombie,
    HuntableAdult,
    HoglinAdult,
    HoglinBaby,
    StartZombification,
    UnhuntableAdult,
    ZombificationSensor,
}
/// Events for this entity
#[derive(Debug, Clone, Copy, PartialEq, Eq, Hash)]
pub enum HoglinEvent {
    AttackCooldownCompleteEvent,
    BecomeAngryEvent,
    BecomeCalmEvent,
    BecomeZombieEvent,
    EscapedEvent,
    AgeableGrowUp,
    EntityBorn,
    EntitySpawned,
    SpawnAdult,
    SpawnAdultUnhuntable,
    SpawnBaby,
    StartZombificationEvent,
    StopZombificationEvent,
}

} // verus!
