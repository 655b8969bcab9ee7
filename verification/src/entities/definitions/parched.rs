//! Definition of `minecraft:parched`: its identifier, spawn flags, component groups and events.
use vstd::prelude::*;

verus! {

/// Entity definition for `minecraft:parched`
pub struct Parched;
impl Parched {
    /// The entity identifier
    pub const IDENTIFIER: &'static str = "minecraft:parched";
    /// Whether this entity can spawn naturally
    pub const IS_SPAWNABLE: bool = true;
    /// Whether this entity can be summoned via commands
    pub const IS_SUMMONABLE: bool = true;
}

/// Component groups for this entity
#[derive(Debug, Clone, Copy, PartialEq, Eq, Hash)]
pub enum ParchedComponentGroup {
    MeleeAttack,
    RangedAttack,
}
/// Events for this entity
#[derive(Debug, Clone, Copy, PartialEq, Eq, Hash)]
pub enum ParchedEvent {
    EntitySpawned,
    MeleeMode,
    RangedMode,
}

} // verus!
