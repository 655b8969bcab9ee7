//! Definition of `minecraft:lingering_potion`: its identifier and spawn flags.
use vstd::prelude::*;

verus! {

/// Entity definition for `minecraft:lingering_potion`
pub struct LingeringPotion;
impl LingeringPotion {
    /// The entity identifier
    pub const IDENTIFIER: &'static str = "minecraft:lingering_potion";
    /// Whether this entity can spawn naturally
    pub const IS_SPAWNABLE: bool = false;
    /// Whether this entity can be summoned via commands
    pub const IS_SUMMONABLE: bool = false;
}

} // verus!
