//! Definition of `minecraft:small_fireball`: its identifier and spawn flags.
use vstd::prelude::*;

verus! {

/// Entity definition for `minecraft:small_fireball`
pub struct SmallFireball;
impl SmallFireball {
    /// The entity identifier
    pub const IDENTIFIER: &'static str = "minecraft:small_fireball";
    /// Whether this entity can spawn naturally
    pub const IS_SPAWNABLE: bool = false;
    /// Whether this entity can be summoned via commands
    pub const IS_SUMMONABLE: bool = false;
}

} // verus!
