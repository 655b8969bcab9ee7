//! Definition of `minecraft:tnt_minecart`: its identifier, spawn flags, component groups and events.
use vstd::prelude::*;

verus! {

/// Entity definition for `minecraft:tnt_minecart`
pub struct TntMinecart;
impl TntMinecart {
    /// The entity identifier
    pub const IDENTIFIER: &'static str = "minecraft:tnt_minecart";
    /// Whether this entity can spawn naturally
    pub const IS_SPAWNABLE: bool = false;
    /// Whether this entity can be summoned via commands
    pub const IS_SUMMONABLE: bool = true;
}

/// Component groups for this entity
#[derive(Debug, Clone, Copy, PartialEq, Eq, Hash)]
pub enum TntMinecartComponentGroup {
    Inactive,
    InstantExplodeTnt,
    PrimedTnt,
}
/// Events for this entity
#[derive(Debug, Clone, Copy, PartialEq, Eq, Hash)]
pub enum TntMinecartEvent {
    EntitySpawned,
    OnInstantPrime,
    OnPrime,
}

} // verus!
