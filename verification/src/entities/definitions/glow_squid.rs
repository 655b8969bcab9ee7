//! Definition of `minecraft:glow_squid`: its identifier, spawn flags, component groups and events.
use vstd::prelude::*;

verus! {

/// Entity definition for `minecraft:glow_squid`
pub struct GlowSquid;
impl GlowSquid {
    /// The entity identifier
    pub const IDENTIFIER: &'static str = "minecraft:glow_squid";
    /// Whether this entity can spawn naturally
    pub const IS_SPAWNABLE: bool = true;
    /// Whether this entity can be summoned via commands
    pub const IS_SUMMONABLE: bool = true;
}

/// Component groups for this entity
#[derive(Debug, Clone, Copy, PartialEq, Eq, Hash)]
pub enum GlowSquidComponentGroup {
    SquidAdult,
    SquidBaby,
}
/// Events for this entity
#[derive(Debug, Clone, Copy, PartialEq, Eq, Hash)]
pub enum GlowSquidEvent {
    EntitySpawned,
}

} // verus!
