//! Definition of `minecraft:squid`: its identifier, spawn flags, component groups and events.
use vstd::prelude::*;

verus! {

/// Entity definition for `minecraft:squid`
pub struct Squid;
impl Squid {
    /// The entity identifier
    pub const IDENTIFIER: &'static str = "minecraft:squid";
    /// Whether this entity can spawn naturally
    pub const IS_SPAWNABLE: bool = true;
    /// Whether this entity can be summoned via commands
    pub const IS_SUMMONABLE: bool = true;
}

/// Component groups for this entity
#[derive(Debug, Clone, Copy, PartialEq, Eq, Hash)]
pub enum SquidComponentGroup {
    SquidAdult,
    SquidBaby,
}
/// Events for this entity
#[derive(Debug, Clone, Copy, PartialEq, Eq, Hash)]
pub enum SquidEvent {
    EntitySpawned,
}

} // verus!
