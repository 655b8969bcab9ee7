//! Definition of `minecraft:fireworks_rocket`: its identifier and spawn flags.
use vstd::prelude::*;

verus! {

/// Entity definition for `minecraft:fireworks_rocket`
pub struct FireworksRocket;
impl FireworksRocket {
    /// The entity identifier
    pub const IDENTIFIER: &'static str = "minecraft:fireworks_rocket";
    /// Whether this entity can spawn naturally
    pub const IS_SPAWNABLE: bool = false;
    /// Whether this entity can be summoned via commands
    pub const IS_SUMMONABLE: bool = true;
}

} // verus!
