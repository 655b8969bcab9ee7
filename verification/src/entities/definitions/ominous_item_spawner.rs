//! Definition of `minecraft:ominous_item_spawner`: its identifier and spawn flags.
use vstd::prelude::*;

verus! {

/// Entity definition for `minecraft:ominous_item_spawner`
pub struct OminousItemSpawner;
impl OminousItemSpawner {
    /// The entity identifier
    pub const IDENTIFIER: &'static str = "minecraft:ominous_item_spawner";
    /// Whether this entity can spawn naturally
    pub const IS_SPAWNABLE: bool = false;
    /// Whether this entity can be summoned via commands
    pub const IS_SUMMONABLE: bool = false;
}

} // verus!
