//! Definition of `minecraft:pillager`: its identifier, spawn flags, component groups and events.
use vstd::prelude::*;

verus! {

/// Entity definition for `minecraft:pillager`
pub struct Pillager;
impl Pillager {
    /// The entity identifier
    pub const IDENTIFIER: &'static str = "minecraft:pillager";
    /// Whether this entity can spawn naturally
    pub const IS_SPAWNABLE: bool = true;
    /// Whether this entity can be summoned via commands
    pub const IS_SUMMONABLE: bool = true;
}

/// Component groups for this entity
#[derive(Debug, Clone, Copy, PartialEq, Eq, Hash)]
pub enum PillagerComponentGroup {
    Celebrate,
    IllagerSquadCaptain,
    MeleeAttack,
    PatrolCaptain,
    PatrolFollower,
    RaidConfiguration,
    RaidPersistence,
    RangedAttack,
}
/// Events for this entity
#[derive(Debug, Clone, Copy, PartialEq, Eq, Hash)]
pub enum PillagerEvent {
    Calm,
    EntitySpawned,
    MeleeMode,
    PromoteToIllagerCaptain,
    PromoteToPatrolCaptain,
    RaidExpired,
    RangedMode,
    SpawnAsIllagerCaptain,
    SpawnAsPatrolFollower,
    SpawnForRaid,
    StartCelebrating,
    StopCelebrating,
}

} // verus!
