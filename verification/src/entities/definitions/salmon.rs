//! Definition of `minecraft:salmon`: its identifier, spawn flags, component groups and events.
use vstd::prelude::*;

verus! {

/// Entity definition for `minecraft:salmon`
pub struct Salmon;
impl Salmon {
    /// The entity identifier
    pub const IDENTIFIER: &'static str = "minecraft:salmon";
    /// Whether this entity can spawn naturally
    pub const IS_SPAWNABLE: bool = true;
    /// Whether this entity can be summoned via commands
    pub const IS_SUMMONABLE: bool = true;
}

/// Component groups for this entity
#[derive(Debug, Clone, Copy, PartialEq, Eq, Hash)]
pub enum SalmonComponentGroup {
    ScaleLarge,
    ScaleNormal,
    ScaleSmall,
}
/// Events for this entity
#[derive(Debug, Clone, Copy, PartialEq, Eq, Hash)]
pub enum SalmonEvent {
    EntitySpawned,
}

} // verus!
