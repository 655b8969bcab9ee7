//! Definition of `minecraft:player`: its identifier, spawn flags, component groups and events.
use vstd::prelude::*;

verus! {

/// Entity definition for `minecraft:player`
pub struct Player;
impl Player {
    /// The entity identifier
    pub const IDENTIFIER: &'static str = "minecraft:player";
    /// Whether this entity can spawn naturally
    pub const IS_SPAWNABLE: bool = false;
    /// Whether this entity can be summoned via commands
    pub const IS_SUMMONABLE: bool = false;
}

/// Component groups for this entity
#[derive(Debug, Clone, Copy, PartialEq, Eq, Hash)]
pub enum PlayerComponentGroup {
    AddRaidOmen,
    ClearRaidOmenSpellEffect,
    RaidTrigger,
}
/// Events for this entity
#[derive(Debug, Clone, Copy, PartialEq, Eq, Hash)]
pub enum PlayerEvent {
    ClearAddRaidOmen,
    GainRaidOmen,
    RemoveRaidTrigger,
    TriggerRaid,
}

} // verus!
