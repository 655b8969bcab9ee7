//! Definition of `minecraft:splash_potion`: its identifier and spawn flags.
use vstd::prelude::*;

verus! {

/// Entity definition for `minecraft:splash_potion`
pub struct SplashPotion;
impl SplashPotion {
    /// The entity identifier
    pub const IDENTIFIER: &'static str = "minecraft:splash_potion";
    /// Whether this entity can spawn naturally
    pub const IS_SPAWNABLE: bool = false;
    /// Whether this entity can be summoned via commands
    pub const IS_SUMMONABLE: bool = true;
}

} // verus!
