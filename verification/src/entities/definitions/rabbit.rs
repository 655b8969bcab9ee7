//! Definition of `minecraft:rabbit`: its identifier, spawn flags, component groups and events.
use vstd::prelude::*;

verus! {

/// Entity definition for `minecraft:rabbit`
pub struct Rabbit;
impl Rabbit {
    /// The entity identifier
    pub const IDENTIFIER: &'static str = "minecraft:rabbit";
    /// Whether this entity can spawn naturally
    pub const IS_SPAWNABLE: bool = true;
    /// Whether this entity can be summoned via commands
    pub const IS_SUMMONABLE: bool = true;
}

/// Component groups for this entity
#[derive(Debug, Clone, Copy, PartialEq, Eq, Hash)]
pub enum RabbitComponentGroup {
    Adult,
    Baby,
    CoatBlack,
    CoatBrown,
    CoatDesert,
    CoatSalt,
    CoatSplotched,
    CoatWhite,
}
/// Events for this entity
#[derive(Debug, Clone, Copy, PartialEq, Eq, Hash)]
pub enum RabbitEvent {
    GrowUp,
    InDesert,
    InSnow,
    EntityBorn,
    EntitySpawned,
}

} // verus!
