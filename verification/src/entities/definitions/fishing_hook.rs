//! Definition of `minecraft:fishing_hook`: its identifier, spawn flags, component groups and events.
use vstd::prelude::*;

verus! {

/// Entity definition for `minecraft:fishing_hook`
pub struct FishingHook;
impl FishingHook {
    /// The entity identifier
    pub const IDENTIFIER: &'static str = "minecraft:fishing_hook";
    /// Whether this entity can spawn naturally
    pub const IS_SPAWNABLE: bool = false;
    /// Whether this entity can be summoned via commands
    pub const IS_SUMMONABLE: bool = false;
}

/// Component groups for this entity
#[derive(Debug, Clone, Copy, PartialEq, Eq, Hash)]
pub enum FishingHookComponentGroup {
    LootJungle,
}
/// Events for this entity
#[derive(Debug, Clone, Copy, PartialEq, Eq, Hash)]
pub enum FishingHookEvent {
    EntitySpawned,
}

} // verus!
