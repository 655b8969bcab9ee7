//! Definition of `minecraft:sniffer`: its identifier, spawn flags, component groups and events.
use vstd::prelude::*;

verus! {

/// Entity definition for `minecraft:sniffer`
pub struct Sniffer;
impl Sniffer {
    /// The entity identifier
    pub const IDENTIFIER: &'static str = "minecraft:sniffer";
    /// Whether this entity can spawn naturally
    pub const IS_SPAWNABLE: bool = true;
    /// Whether this entity can be summoned via commands
    pub const IS_SUMMONABLE: bool = true;
}

/// Component groups for this entity
#[derive(Debug, Clone, Copy, PartialEq, Eq, Hash)]
pub enum SnifferComponentGroup {
    FeelingHappy,
    Pushable,
    SnifferAdult,
    SnifferBaby,
    SnifferPregnant,
    SnifferSearchAndDig,
    StandUp,
}
/// Events for this entity
#[derive(Debug, Clone, Copy, PartialEq, Eq, Hash)]
pub enum SnifferEvent {
    AgeableGrowUp,
    EntityBorn,
    EntitySpawned,
    SpawnAdult,
    OnDiggingStart,
    OnEggSpawned,
    OnFailDuringDigging,
    OnFailDuringSearching,
    OnFeelingHappyEnd,
    OnItemFound,
    OnPregnant,
    OnRisingEnd,
    OnScentingSuccess,
    OnSearchAndDiggingSuccess,
}

} // verus!
