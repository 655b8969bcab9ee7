//! Definition of `minecraft:minecart`: its identifier and spawn flags.
use vstd::prelude::*;

verus! {

/// Entity definition for `minecraft:minecart`
pub struct Minecart;
impl Minecart {
    /// The entity identifier
    pub const IDENTIFIER: &'static str = "minecraft:minecart";
    /// Whether this entity can spawn naturally
    pub const IS_SPAWNABLE: bool = false;
    /// Whether this entity can be summoned via commands
    pub const IS_SUMMONABLE: bool = true;
}

} // verus!
