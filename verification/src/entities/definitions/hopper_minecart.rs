//! Definition of `minecraft:hopper_minecart`: its identifier, spawn flags, component groups and events.
use vstd::prelude::*;

verus! {

/// Entity definition for `minecraft:hopper_minecart`
pub struct HopperMinecart;
impl HopperMinecart {
    /// The entity identifier
    pub const IDENTIFIER: &'static str = "minecraft:hopper_minecart";
    /// Whether this entity can spawn naturally
    pub const IS_SPAWNABLE: bool = false;
    /// Whether this entity can be summoned via commands
    pub const IS_SUMMONABLE: bool = true;
}

/// Component groups for this entity
#[derive(Debug, Clone, Copy, PartialEq, Eq, Hash)]
pub enum HopperMinecartComponentGroup {
    HopperActive,
    HopperInactive,
}
/// Events for this entity
#[derive(Debug, Clone, Copy, PartialEq, Eq, Hash)]
pub enum HopperMinecartEvent {
    EntitySpawned,
    HopperActivate,
    HopperDeactivate,
}

} // verus!
