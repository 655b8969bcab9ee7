//! Definition of `minecraft:mooshroom`: its identifier, spawn flags, component groups and events.
use vstd::prelude::*;

verus! {

/// Entity definition for `minecraft:mooshroom`
pub struct Mooshroom;
impl Mooshroom {
    /// The entity identifier
    pub const IDENTIFIER: &'static str = "minecraft:mooshroom";
    /// Whether this entity can spawn naturally
    pub const IS_SPAWNABLE: bool = true;
    /// Whether this entity can be summoned via commands
    pub const IS_SUMMONABLE: bool = true;
}

/// Component groups for this entity
#[derive(Debug, Clone, Copy, PartialEq, Eq, Hash)]
pub enum MooshroomComponentGroup {
    CowAdult,
    CowBaby,
    MooshroomBecomeCow,
    MooshroomBrown,
    MooshroomBrownFedAllium,
    MooshroomBrownFedAzureBluet,
    MooshroomBrownFedBlueOrchid,
    MooshroomBrownFedClosedEyeblossom,
    MooshroomBrownFedCornflower,
    MooshroomBrownFedDandelion,
    MooshroomBrownFedLilyOfTheValley,
    MooshroomBrownFedOpenEyeblossom,
    MooshroomBrownFedOxeyeDaisy,
    MooshroomBrownFedPoppy,
    MooshroomBrownFedTorchflower,
    MooshroomBrownFedTulips,
    MooshroomBrownFedWitherRose,
    MooshroomFedNothing,
    MooshroomRed,
}
/// Events for this entity
#[derive(Debug, Clone, Copy, PartialEq, Eq, Hash)]
pub enum MooshroomEvent {
    BecomeCow,
    AgeableGrowUp,
    AteAllium,
    AteBluet,
    AteClosedEyeblossom,
    AteCornflower,
    AteDaisy,
    AteDandelion,
    AteLily,
    AteOpenEyeblossom,
    AteOrchid,
    AtePoppy,
    AteRose,
    AteTorchflower,
    AteTulip,
    BecomeBrown,
    BecomeBrownAdult,
    BecomeRed,
    BecomeRedAdult,
    EntityBorn,
    EntitySpawned,
    Flowerless,
}

} // verus!
