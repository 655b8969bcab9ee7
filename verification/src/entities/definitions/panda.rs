//! Definition of `minecraft:panda`: its identifier, spawn flags, component groups and events.
use vstd::prelude::*;

verus! {

/// Entity definition for `minecraft:panda`
pub struct Panda;
impl Panda {
    /// The entity identifier
    pub const IDENTIFIER: &'static str = "minecraft:panda";
    /// Whether this entity can spawn naturally
    pub const IS_SPAWNABLE: bool = true;
    /// Whether this entity can be summoned via commands
    pub const IS_SUMMONABLE: bool = true;
}

/// Component groups for this entity
#[derive(Debug, Clone, Copy, PartialEq, Eq, Hash)]
pub enum PandaComponentGroup {
    BabyScared,
    PandaAdult,
    PandaAggressive,
    PandaAngry,
    PandaBaby,
    PandaBrown,
    PandaLazy,
    PandaPlayful,
    PandaSneezing,
    PandaWeak,
    PandaWorried,
}
/// Events for this entity
#[derive(Debug, Clone, Copy, PartialEq, Eq, Hash)]
pub enum PandaEvent {
    AgeableGrowUp,
    BabyOnCalm,
    BecomeAngry,
    EntityBorn,
    EntitySpawned,
    OnCalm,
    OnScared,
    PandaAggressive,
    PandaBrown,
    PandaLazy,
    PandaPlayful,
    PandaWeak,
    PandaWorried,
}

} // verus!
