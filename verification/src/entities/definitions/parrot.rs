//! Definition of `minecraft:parrot`: its identifier, spawn flags, component groups and events.
use vstd::prelude::*;

verus! {

/// Entity definition for `minecraft:parrot`
pub struct Parrot;
impl Parrot {
    /// The entity identifier
    pub const IDENTIFIER: &'static str = "minecraft:parrot";
    /// Whether this entity can spawn naturally
    pub const IS_SPAWNABLE: bool = true;
    /// Whether this entity can be summoned via commands
    pub const IS_SUMMONABLE: bool = true;
}

/// Component groups for this entity
#[derive(Debug, Clone, Copy, PartialEq, Eq, Hash)]
pub enum ParrotComponentGroup {
    ParrotAdult,
    ParrotBlue,
    ParrotCyan,
    ParrotGreen,
    ParrotNotRidingPlayer,
    ParrotRed,
    ParrotRidingPlayer,
    ParrotSilver,
    ParrotTame,
    ParrotWild,
}
/// Events for this entity
#[derive(Debug, Clone, Copy, PartialEq, Eq, Hash)]
pub enum ParrotEvent {
    EntitySpawned,
    OnNotRidingPlayer,
    OnRidingPlayer,
    OnTame,
}

} // verus!
