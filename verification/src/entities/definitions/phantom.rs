//! Definition of `minecraft:phantom`: its identifier and spawn flags.
use vstd::prelude::*;

verus! {

/// Entity definition for `minecraft:phantom`
pub struct Phantom;
impl Phantom {
    /// The entity identifier
    pub const IDENTIFIER: &'static str = "minecraft:phantom";
    /// Whether this entity can spawn naturally
    pub const IS_SPAWNABLE: bool = true;
    /// Whether this entity can be summoned via commands
    pub const IS_SUMMONABLE: bool = true;
}

} // verus!
