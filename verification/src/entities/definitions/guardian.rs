//! Definition of `minecraft:guardian`: its identifier, spawn flags, component groups and events.
use vstd::prelude::*;

verus! {

/// Entity definition for `minecraft:guardian`
pub struct Guardian;
impl Guardian {
    /// The entity identifier
    pub const IDENTIFIER: &'static str = "minecraft:guardian";
    /// Whether this entity can spawn naturally
    pub const IS_SPAWNABLE: bool = true;
    /// Whether this entity can be summoned via commands
    pub const IS_SUMMONABLE: bool = true;
}

/// Component groups for this entity
#[derive(Debug, Clone, Copy, PartialEq, Eq, Hash)]
pub enum GuardianComponentGroup {
    GuardianAggressive,
    GuardianPassive,
}
/// Events for this entity
#[derive(Debug, Clone, Copy, PartialEq, Eq, Hash)]
pub enum GuardianEvent {
    TargetFarEnough,
    TargetTooClose,
}

} // verus!
