//! Definition of `minecraft:silverfish`: its identifier, spawn flags, component groups and events.
use vstd::prelude::*;

verus! {

/// Entity definition for `minecraft:silverfish`
pub struct Silverfish;
impl Silverfish {
    /// The entity identifier
    pub const IDENTIFIER: &'static str = "minecraft:silverfish";
    /// Whether this entity can spawn naturally
    pub const IS_SPAWNABLE: bool = true;
    /// Whether this entity can be summoned via commands
    pub const IS_SUMMONABLE: bool = true;
}

/// Component groups for this entity
#[derive(Debug, Clone, Copy, PartialEq, Eq, Hash)]
pub enum SilverfishComponentGroup {
    SilverfishAngry,
    SilverfishCalm,
}
/// Events for this entity
#[derive(Debug, Clone, Copy, PartialEq, Eq, Hash)]
pub enum SilverfishEvent {
    BecomeAngry,
    EntitySpawned,
    OnCalm,
}

} // verus!
