//! Definition of `minecraft:tripod_camera`: its identifier and spawn flags.
use vstd::prelude::*;

verus! {

/// Entity definition for `minecraft:tripod_camera`
pub struct TripodCamera;
impl TripodCamera {
    /// The entity identifier
    pub const IDENTIFIER: &'static str = "minecraft:tripod_camera";
    /// Whether this entity can spawn naturally
    pub const IS_SPAWNABLE: bool = false;
    /// Whether this entity can be summoned via commands
    pub const IS_SUMMONABLE: bool = false;
}

} // verus!
