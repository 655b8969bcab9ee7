//! Definition of `minecraft:snow_golem`: its identifier, spawn flags, component groups and events.
use vstd::prelude::*;

verus! {

/// Entity definition for `minecraft:snow_golem`
pub struct SnowGolem;
impl SnowGolem {
    /// The entity identifier
    pub const IDENTIFIER: &'static str = "minecraft:snow_golem";
    /// Whether this entity can spawn naturally
    pub const IS_SPAWNABLE: bool = true;
    /// Whether this entity can be summoned via commands
    pub const IS_SUMMONABLE: bool = true;
}

/// Component groups for this entity
#[derive(Debug, Clone, Copy, PartialEq, Eq, Hash)]
pub enum SnowGolemComponentGroup {
    SnowmanSheared,
}
/// Events for this entity
#[derive(Debug, Clone, Copy, PartialEq, Eq, Hash)]
pub enum SnowGolemEvent {
    OnSheared,
}

} // verus!
