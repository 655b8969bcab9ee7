//! Definition of `minecraft:horse`: its identifier, spawn flags, component groups and events.
use vstd::prelude::*;

verus! {

/// Entity definition for `minecraft:horse`
pub struct Horse;
impl Horse {
    /// The entity identifier
    pub const IDENTIFIER: &'static str = "minecraft:horse";
    /// Whether this entity can spawn naturally
    pub const IS_SPAWNABLE: bool = true;
    /// Whether this entity can be summoned via commands
    pub const IS_SUMMONABLE: bool = true;
}

/// Component groups for this entity
#[derive(Debug, Clone, Copy, PartialEq, Eq, Hash)]
pub enum HorseComponentGroup {
    BaseBlack,
    BaseBrown,
    BaseChestnut,
    BaseCreamy,
    BaseDarkbrown,
    BaseGray,
    BaseWhite,
    HorseAdult,
    HorseBaby,
    HorseSaddled,
    HorseTamed,
    HorseWild,
    MarkingsBlackDots,
    MarkingsNone,
    MarkingsWhiteDetails,
    MarkingsWhiteDots,
    MarkingsWhiteFields,
}
/// Events for this entity
#[derive(Debug, Clone, Copy, PartialEq, Eq, Hash)]
pub enum HorseEvent {
    AgeableGrowUp,
    EntityBorn,
    EntitySpawned,
    HorseSaddled,
    HorseUnsaddled,
    MakeBlack,
    MakeBrown,
    MakeChestnut,
    MakeCreamy,
    MakeDarkbrown,
    MakeGray,
    MakeWhite,
    OnTame,
    SpawnAdult,
    SpawnTameAdult,
}

} // verus!
