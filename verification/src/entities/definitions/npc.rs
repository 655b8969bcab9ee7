//! Definition of `minecraft:npc`: its identifier and spawn flags.
use vstd::prelude::*;

verus! {

/// Entity definition for `minecraft:npc`
pub struct Npc;
impl Npc {
    /// The entity identifier
    pub const IDENTIFIER: &'static str = "minecraft:npc";
    /// Whether this entity can spawn naturally
    pub const IS_SPAWNABLE: bool = true;
    /// Whether this entity can be summoned via commands
    pub const IS_SUMMONABLE: bool = true;
}

} // verus!
