//! Definition of `minecraft:shulker_bullet`: its identifier and spawn flags.
use vstd::prelude::*;

verus! {

/// Entity definition for `minecraft:shulker_bullet`
pub struct ShulkerBullet;
impl ShulkerBullet {
    /// The entity identifier
    pub const IDENTIFIER: &'static str = "minecraft:shulker_bullet";
    /// Whether this entity can spawn naturally
    pub const IS_SPAWNABLE: bool = false;
    /// Whether this entity can be summoned via commands
    pub const IS_SUMMONABLE: bool = false;
}

} // verus!
