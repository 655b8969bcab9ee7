//! Definition of `minecraft:pufferfish`: its identifier, spawn flags, component groups and events.
use vstd::prelude::*;

verus! {

/// Entity definition for `minecraft:pufferfish`
pub struct Pufferfish;
impl Pufferfish {
    /// The entity identifier
    pub const IDENTIFIER: &'static str = "minecraft:pufferfish";
    /// Whether this entity can spawn naturally
    pub const IS_SPAWNABLE: bool = true;
    /// Whether this entity can be summoned via commands
    pub const IS_SUMMONABLE: bool = true;
}

/// Component groups for this entity
#[derive(Debug, Clone, Copy, PartialEq, Eq, Hash)]
pub enum PufferfishComponentGroup {
    DeflateSensor,
    DeflateSensorBuffer,
    FullPuff,
    HalfPuffPrimary,
    HalfPuffSecondary,
    NormalPuff,
    StartDeflate,
}
/// Events for this entity
#[derive(Debug, Clone, Copy, PartialEq, Eq, Hash)]
pub enum PufferfishEvent {
    EntitySpawned,
    FromFullPuff,
    OnDeflate,
    OnFullPuff,
    OnHalfPuff,
    OnNormalPuff,
    StartFullPuff,
    StartHalfPuff,
    ToFullPuff,
}

} // verus!
