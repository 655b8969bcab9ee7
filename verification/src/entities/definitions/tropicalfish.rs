//! Definition of `minecraft:tropicalfish`: its identifier, spawn flags, component groups and events.
use vstd::prelude::*;

verus! {

/// Entity definition for `minecraft:tropicalfish`
pub struct Tropicalfish;
impl Tropicalfish {
    /// The entity identifier
    pub const IDENTIFIER: &'static str = "minecraft:tropicalfish";
    /// Whether this entity can spawn naturally
    pub const IS_SPAWNABLE: bool = true;
    /// Whether this entity can be summoned via commands
    pub const IS_SUMMONABLE: bool = true;
}

/// Component groups for this entity
#[derive(Debug, Clone, Copy, PartialEq, Eq, Hash)]
pub enum TropicalfishComponentGroup {
    Anenonme,
    BlackTang,
    BlueDory,
    ButterflyFish,
    CcBetta,
    Cichlid,
    Clownfish,
    DogFish,
    ERedSnapper,
    GoatFish,
    MoorishIdol,
    OrnateButterfly,
    ParrotFish,
    QueenAngelFish,
    RedCichlid,
    RedLippedBenny,
    RedSnapper,
    Threadfin,
    TomatoClown,
    Triggerfish,
    TropicalfishBaseBlue,
    TropicalfishBaseBrown,
    TropicalfishBaseCyan,
    TropicalfishBaseGray,
    TropicalfishBaseGreen,
    TropicalfishBaseLightblue,
    TropicalfishBaseLightgreen,
    TropicalfishBaseMagenta,
    TropicalfishBaseOrange,
    TropicalfishBasePink,
    TropicalfishBasePurple,
    TropicalfishBaseRed,
    TropicalfishBaseSilver,
    TropicalfishBaseWhite,
    TropicalfishBaseYellow,
    TropicalfishPatternBlue,
    TropicalfishPatternBrown,
    TropicalfishPatternCyan,
    TropicalfishPatternGray,
    TropicalfishPatternGreen,
    TropicalfishPatternLightblue,
    TropicalfishPatternLightgreen,
    TropicalfishPatternMagenta,
    TropicalfishPatternOrange,
    TropicalfishPatternPink,
    TropicalfishPatternPurple,
    TropicalfishPatternRed,
    TropicalfishPatternSilver,
    TropicalfishPatternWhite,
    TropicalfishPatternYellow,
    TropicalfishVariantA,
    TropicalfishVariantB,
    TropicalfishVariantPattern1,
    TropicalfishVariantPattern2,
    TropicalfishVariantPattern3,
    TropicalfishVariantPattern4,
    TropicalfishVariantPattern5,
    TropicalfishVariantPattern6,
    YellowTang,
    YellowtailParrot,
}
/// Events for this entity
#[derive(Debug, Clone, Copy, PartialEq, Eq, Hash)]
pub enum TropicalfishEvent {
    BecomeAnenonme,
    BecomeBlackTang,
    BecomeBlueDory,
    BecomeButterflyFish,
    BecomeCcBetta,
    BecomeCichlid,
    BecomeClownfish,
    BecomeDogFish,
    BecomeERedSnapper,
    BecomeGoatFish,
    BecomeMoorishIdol,
    BecomeOrnateButterfly,
    BecomeParrotFish,
    BecomeQueenAngelFish,
    BecomeRedCichlid,
    BecomeRedLippedBenny,
    BecomeRedSnapper,
    BecomeThreadfin,
    BecomeTomatoClown,
    BecomeTriggerfish,
    BecomeYellowTailParrot,
    BecomeYellowTang,
    EntitySpawned,
}

} // verus!
