//! Definition of `minecraft:thrown_trident`: its identifier and spawn flags.
use vstd::prelude::*;

verus! {

/// Entity definition for `minecraft:thrown_trident`
pub struct ThrownTrident;
impl ThrownTrident {
    /// The entity identifier
    pub const IDENTIFIER: &'static str = "minecraft:thrown_trident";
    /// Whether this entity can spawn naturally
    pub const IS_SPAWNABLE: bool = false;
    /// Whether this entity can be summoned via commands
    pub const IS_SUMMONABLE: bool = false;
}

} // verus!
