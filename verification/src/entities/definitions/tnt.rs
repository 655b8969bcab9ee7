//! Definition of `minecraft:tnt`: its identifier, spawn flags, component groups and events.
use vstd::prelude::*;

verus! {

/// Entity definition for `minecraft:tnt`
pub struct Tnt;
impl Tnt {
    /// The entity identifier
    pub const IDENTIFIER: &'static str = "minecraft:tnt";
    /// Whether this entity can spawn naturally
    pub const IS_SPAWNABLE: bool = false;
    /// Whether this entity can be summoned via commands
    pub const IS_SUMMONABLE: bool = true;
}

/// Component groups for this entity
#[derive(Debug, Clone, Copy, PartialEq, Eq, Hash)]
pub enum TntComponentGroup {
    FromExplosion,
}
/// Events for this entity
#[derive(Debug, Clone, Copy, PartialEq, Eq, Hash)]
pub enum TntEvent {
    FromExplosion,
}

} // verus!
