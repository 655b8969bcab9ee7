//! Definition of `minecraft:llama_spit`: its identifier and spawn flags.
use vstd::prelude::*;

verus! {

/// Entity definition for `minecraft:llama_spit`
pub struct LlamaSpit;
impl LlamaSpit {
    /// The entity identifier
    pub const IDENTIFIER: &'static str = "minecraft:llama_spit";
    /// Whether this entity can spawn naturally
    pub const IS_SPAWNABLE: bool = false;
    /// Whether this entity can be summoned via commands
    pub const IS_SUMMONABLE: bool = false;
}

} // verus!
