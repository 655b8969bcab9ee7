//! Definition of `minecraft:skeleton_horse`: its identifier, spawn flags, component groups and events.
use vstd::prelude::*;

verus! {

/// Entity definition for `minecraft:skeleton_horse`
pub struct SkeletonHorse;
impl SkeletonHorse {
    /// The entity identifier
    pub const IDENTIFIER: &'static str = "minecraft:skeleton_horse";
    /// Whether this entity can spawn naturally
    pub const IS_SPAWNABLE: bool = true;
    /// Whether this entity can be summoned via commands
    pub const IS_SUMMONABLE: bool = true;
}

/// Component groups for this entity
#[derive(Debug, Clone, Copy, PartialEq, Eq, Hash)]
pub enum SkeletonHorseComponentGroup {
    LightningImmune,
    SkeletonHorseAdult,
    SkeletonHorseBaby,
    SkeletonHorseR5Upgrade,
    SkeletonTrap,
}
/// Events for this entity
#[derive(Debug, Clone, Copy, PartialEq, Eq, Hash)]
pub enum SkeletonHorseEvent {
    EntitySpawned,
    SetTrap,
    SpringTrap,
}

} // verus!
