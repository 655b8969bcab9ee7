//! Definition of `minecraft:llama`: its identifier, spawn flags, component groups and events.
use vstd::prelude::*;

verus! {

/// Entity definition for `minecraft:llama`
pub struct Llama;
impl Llama {
    /// The entity identifier
    pub const IDENTIFIER: &'static str = "minecraft:llama";
    /// Whether this entity can spawn naturally
    pub const IS_SPAWNABLE: bool = true;
    /// Whether this entity can be summoned via commands
    pub const IS_SUMMONABLE: bool = true;
}

/// Component groups for this entity
#[derive(Debug, Clone, Copy, PartialEq, Eq, Hash)]
pub enum LlamaComponentGroup {
    InCaravan,
    LlamaAdult,
    LlamaAngry,
    LlamaAngryWolf,
    LlamaBaby,
    LlamaBrown,
    LlamaChested,
    LlamaCreamy,
    LlamaGray,
    LlamaTamed,
    LlamaUnchested,
    LlamaUnleashed,
    LlamaWhite,
    LlamaWild,
    Strength1,
    Strength2,
    Strength3,
    Strength4,
    Strength5,
}
/// Events for this entity
#[derive(Debug, Clone, Copy, PartialEq, Eq, Hash)]
pub enum LlamaEvent {
    AddAttributes,
    AgeableGrowUp,
    BecomeAngry,
    EntityBorn,
    EntitySpawned,
    JoinCaravan,
    LeaveCaravan,
    MadAtWolf,
    OnCalm,
    OnChest,
    OnLeash,
    OnTame,
    OnUnleash,
    SpawnAdult,
    SpawnBaby,
    SpawnTameAdult,
}

} // verus!
