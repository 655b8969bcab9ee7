//! Definition of `minecraft:shulker`: its identifier, spawn flags, component groups and events.
use vstd::prelude::*;

verus! {

/// Entity definition for `minecraft:shulker`
pub struct Shulker;
impl Shulker {
    /// The entity identifier
    pub const IDENTIFIER: &'static str = "minecraft:shulker";
    /// Whether this entity can spawn naturally
    pub const IS_SPAWNABLE: bool = true;
    /// Whether this entity can be summoned via commands
    pub const IS_SUMMONABLE: bool = true;
}

/// Component groups for this entity
#[derive(Debug, Clone, Copy, PartialEq, Eq, Hash)]
pub enum ShulkerComponentGroup {
    ShulkerBlack,
    ShulkerBlue,
    ShulkerBrown,
    ShulkerCyan,
    ShulkerGray,
    ShulkerGreen,
    ShulkerLightBlue,
    ShulkerLime,
    ShulkerMagenta,
    ShulkerOrange,
    ShulkerPink,
    ShulkerPurple,
    ShulkerRed,
    ShulkerSilver,
    ShulkerUndyed,
    ShulkerWhite,
    ShulkerYellow,
}
/// Events for this entity
#[derive(Debug, Clone, Copy, PartialEq, Eq, Hash)]
pub enum ShulkerEvent {
    EntitySpawned,
    TurnBlack,
    TurnBlue,
    TurnBrown,
    TurnCyan,
    TurnGray,
    TurnGreen,
    TurnLightBlue,
    TurnLime,
    TurnMagenta,
    TurnOrange,
    TurnPink,
    TurnPurple,
    TurnRed,
    TurnSilver,
    TurnWhite,
    TurnYellow,
}

} // verus!
