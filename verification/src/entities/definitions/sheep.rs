//! Definition of `minecraft:sheep`: its identifier, spawn flags, component groups and events.
use vstd::prelude::*;

verus! {

/// Entity definition for `minecraft:sheep`
pub struct Sheep;
impl Sheep {
    /// The entity identifier
    pub const IDENTIFIER: &'static str = "minecraft:sheep";
    /// Whether this entity can spawn naturally
    pub const IS_SPAWNABLE: bool = true;
    /// Whether this entity can be summoned via commands
    pub const IS_SUMMONABLE: bool = true;
}

/// Component groups for this entity
#[derive(Debug, Clone, Copy, PartialEq, Eq, Hash)]
pub enum SheepComponentGroup {
    LootSheared,
    LootWooly,
    RideableSheared,
    RideableWooly,
    SheepAdult,
    SheepBaby,
    SheepBlack,
    SheepBlue,
    SheepBrown,
    SheepCyan,
    SheepDyeable,
    SheepGray,
    SheepLightBlue,
    SheepLightGray,
    SheepOrange,
    SheepPink,
    SheepRed,
    SheepSheared,
    SheepWhite,
    SheepYellow,
}
/// Events for this entity
#[derive(Debug, Clone, Copy, PartialEq, Eq, Hash)]
pub enum SheepEvent {
    AgeableGrowUp,
    ColdColor,
    EntityBorn,
    EntitySpawned,
    OnEatBlock,
    OnSheared,
    TemperateColor,
    WarmColor,
    SpawnAdult,
    SpawnBaby,
    Wololo,
}

} // verus!
