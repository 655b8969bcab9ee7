//! Definition of `minecraft:snowball`: its identifier and spawn flags.
use vstd::prelude::*;

verus! {

/// Entity definition for `minecraft:snowball`
pub struct Snowball;
impl Snowball {
    /// The entity identifier
    pub const IDENTIFIER: &'static str = "minecraft:snowball";
    /// Whether this entity can spawn naturally
    pub const IS_SPAWNABLE: bool = false;
    /// Whether this entity can be summoned via commands
    pub const IS_SUMMONABLE: bool = true;
}

} // verus!
