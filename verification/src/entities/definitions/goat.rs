//! Definition of `minecraft:goat`: its identifier, spawn flags, component groups and events.
use vstd::prelude::*;

verus! {

/// Entity definition for `minecraft:goat`
pub struct Goat;
impl Goat {
    /// The entity identifier
    pub const IDENTIFIER: &'static str = "minecraft:goat";
    /// Whether this entity can spawn naturally
    pub const IS_SPAWNABLE: bool = true;
    /// Whether this entity can be summoned via commands
    pub const IS_SUMMONABLE: bool = true;
}

/// Component groups for this entity
#[derive(Debug, Clone, Copy, PartialEq, Eq, Hash)]
pub enum GoatComponentGroup {
    AttackCooldown,
    GoatAdult,
    GoatBaby,
    GoatDefault,
    GoatScreamer,
    InteractDefault,
    InteractScreamer,
    RamDefault,
    RamScreamer,
}
/// Events for this entity
#[derive(Debug, Clone, Copy, PartialEq, Eq, Hash)]
pub enum GoatEvent {
    AttackCooldownCompleteEvent,
    AgeableGrowUp,
    BornDefault,
    BornScreamer,
    EntityBorn,
    EntitySpawned,
    StartEvent,
}

} // verus!
