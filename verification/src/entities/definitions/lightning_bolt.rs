//! Definition of `minecraft:lightning_bolt`: its identifier and spawn flags.
use vstd::prelude::*;

verus! {

/// Entity definition for `minecraft:lightning_bolt`
pub struct LightningBolt;
impl LightningBolt {
    /// The entity identifier
    pub const IDENTIFIER: &'static str = "minecraft:lightning_bolt";
    /// Whether this entity can spawn naturally
    pub const IS_SPAWNABLE: bool = false;
    /// Whether this entity can be summoned via commands
    pub const IS_SUMMONABLE: bool = true;
}

} // verus!
