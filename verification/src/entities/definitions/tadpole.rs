//! Definition of `minecraft:tadpole`: its identifier, spawn flags, component groups and events.
use vstd::prelude::*;

verus! {

/// Entity definition for `minecraft:tadpole`
pub struct Tadpole;
impl Tadpole {
    /// The entity identifier
    pub const IDENTIFIER: &'static str = "minecraft:tadpole";
    /// Whether this entity can spawn naturally
    pub const IS_SPAWNABLE: bool = true;
    /// Whether this entity can be summoned via commands
    pub const IS_SUMMONABLE: bool = true;
}

/// Component groups for this entity
#[derive(Debug, Clone, Copy, PartialEq, Eq, Hash)]
pub enum TadpoleComponentGroup {
    GrowUp,
}
/// Events for this entity
#[derive(Debug, Clone, Copy, PartialEq, Eq, Hash)]
pub enum TadpoleEvent {
    AgeableGrowUp,
}

} // verus!
