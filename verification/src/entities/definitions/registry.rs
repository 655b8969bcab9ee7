//! The generated entity registry: one record per behavior-pack entity,
//! ordered by identifier, and lookup of a record by its namespaced identifier.
use vstd::prelude::*;

use crate::lexicographic::{
    char_seq_lt, lemma_lt_distinct, lemma_lt_drop_common_prefix, lemma_lt_transitive,
    lemma_precedes_at,
};

verus! {

/// Number of records in the registry.
pub const ENTITY_COUNT: usize = 126;

/// Generated behavior-pack entity metadata.
///
/// Collision box dimensions are kept as whole numbers of ten-thousandths of a
/// block: every dimension in the behavior-pack data has at most four decimal
/// places, so this keeps each one exactly.
#[derive(Debug, Clone, Copy, PartialEq)]
pub struct EntityDefinitionData {
    /// Internal registry ID assigned by deterministic codegen order.
    ///
    /// This is not a Bedrock packet/runtime entity ID.
    pub id: u32,
    /// Namespaced entity identifier.
    pub identifier: &'static str,
    /// Vanilla spawn category, when present.
    pub spawn_category: Option<&'static str>,
    /// Whether this entity can spawn naturally.
    pub is_spawnable: bool,
    /// Whether this entity can be summoned by commands.
    pub is_summonable: bool,
    /// Sourced Bedrock runtime entity ID, when present in the input data.
    pub runtime_id: Option<u32>,
    /// Collision box height from `minecraft:collision_box`, when present,
    /// in ten-thousandths of a block.
    pub height: Option<u32>,
    /// Collision box width from `minecraft:collision_box`, when present,
    /// in ten-thousandths of a block.
    pub width: Option<u32>,
}

/// The registry record at position `i`, for `0 <= i < ENTITY_COUNT`;
/// records are sorted by identifier.
pub open spec fn registry_record(i: int) -> EntityDefinitionData {
    if i == 0 {
        EntityDefinitionData { id: 0, identifier: "minecraft:allay", spawn_category: Some("creature"), is_spawnable: true, is_summonable: true, runtime_id: None, height: Some(6000), width: Some(3500) }
    } else
    if i == 1 {
        EntityDefinitionData { id: 1, identifier: "minecraft:area_effect_cloud", spawn_category: None, is_spawnable: false, is_summonable: false, runtime_id: None, height: Some(18000), width: Some(6000) }
    } else
    if i == 2 {
        EntityDefinitionData { id: 2, identifier: "minecraft:armadillo", spawn_category: Some("creature"), is_spawnable: true, is_summonable: true, runtime_id: None, height: Some(6500), width: Some(7000) }
    } else
    if i == 3 {
        EntityDefinitionData { id: 3, identifier: "minecraft:armor_stand", spawn_category: None, is_spawnable: false, is_summonable: true, runtime_id: None, height: Some(19750), width: Some(5000) }
    } else
    if i == 4 {
        EntityDefinitionData { id: 4, identifier: "minecraft:arrow", spawn_category: None, is_spawnable: false, is_summonable: true, runtime_id: None, height: Some(2500), width: Some(2500) }
    } else
    if i == 5 {
        EntityDefinitionData { id: 5, identifier: "minecraft:axolotl", spawn_category: Some("axolotls"), is_spawnable: true, is_summonable: true, runtime_id: None, height: Some(4200), width: Some(7500) }
    } else
    if i == 6 {
        EntityDefinitionData { id: 6, identifier: "minecraft:bat", spawn_category: Some("ambient"), is_spawnable: true, is_summonable: true, runtime_id: None, height: Some(9000), width: Some(5000) }
    } else
    if i == 7 {
        EntityDefinitionData { id: 7, identifier: "minecraft:bee", spawn_category: Some("creature"), is_spawnable: true, is_summonable: true, runtime_id: None, height: Some(5000), width: Some(5500) }
    } else
    if i == 8 {
        EntityDefinitionData { id: 8, identifier: "minecraft:blaze", spawn_category: Some("monster"), is_spawnable: true, is_summonable: true, runtime_id: None, height: Some(18000), width: Some(5000) }
    } else
    if i == 9 {
        EntityDefinitionData { id: 9, identifier: "minecraft:boat", spawn_category: None, is_spawnable: false, is_summonable: true, runtime_id: None, height: Some(4550), width: Some(14000) }
    } else
    if i == 10 {
        EntityDefinitionData { id: 10, identifier: "minecraft:bogged", spawn_category: Some("monster"), is_spawnable: true, is_summonable: true, runtime_id: None, height: Some(19000), width: Some(6000) }
    } else
    if i == 11 {
        EntityDefinitionData { id: 11, identifier: "minecraft:breeze", spawn_category: Some("monster"), is_spawnable: true, is_summonable: true, runtime_id: None, height: Some(17700), width: Some(6000) }
    } else
    if i == 12 {
        EntityDefinitionData { id: 12, identifier: "minecraft:breeze_wind_charge_projectile", spawn_category: None, is_spawnable: false, is_summonable: false, runtime_id: None, height: Some(3125), width: Some(3125) }
    } else
    if i == 13 {
        EntityDefinitionData { id: 13, identifier: "minecraft:camel", spawn_category: Some("creature"), is_spawnable: true, is_summonable: true, runtime_id: None, height: Some(23750), width: Some(17000) }
    } else
    if i == 14 {
        EntityDefinitionData { id: 14, identifier: "minecraft:camel_husk", spawn_category: Some("monster"), is_spawnable: true, is_summonable: true, runtime_id: None, height: Some(23750), width: Some(17000) }
    } else
    if i == 15 {
        EntityDefinitionData { id: 15, identifier: "minecraft:cat", spawn_category: Some("creature"), is_spawnable: true, is_summonable: true, runtime_id: None, height: Some(7000), width: Some(6000) }
    } else
    if i == 16 {
        EntityDefinitionData { id: 16, identifier: "minecraft:cave_spider", spawn_category: Some("monster"), is_spawnable: true, is_summonable: true, runtime_id: None, height: Some(5000), width: Some(7000) }
    } else
    if i == 17 {
        EntityDefinitionData { id: 17, identifier: "minecraft:chest_boat", spawn_category: None, is_spawnable: false, is_summonable: true, runtime_id: None, height: Some(4550), width: Some(14000) }
    } else
    if i == 18 {
        EntityDefinitionData { id: 18, identifier: "minecraft:chest_minecart", spawn_category: None, is_spawnable: false, is_summonable: true, runtime_id: None, height: Some(7000), width: Some(9800) }
    } else
    if i == 19 {
        EntityDefinitionData { id: 19, identifier: "minecraft:chicken", spawn_category: Some("creature"), is_spawnable: true, is_summonable: true, runtime_id: None, height: Some(8000), width: Some(6000) }
    } else
    if i == 20 {
        EntityDefinitionData { id: 20, identifier: "minecraft:cod", spawn_category: Some("water_ambient"), is_spawnable: true, is_summonable: true, runtime_id: None, height: Some(3000), width: Some(6000) }
    } else
    if i == 21 {
        EntityDefinitionData { id: 21, identifier: "minecraft:command_block_minecart", spawn_category: None, is_spawnable: false, is_summonable: true, runtime_id: None, height: Some(7000), width: Some(9800) }
    } else
    if i == 22 {
        EntityDefinitionData { id: 22, identifier: "minecraft:copper_golem", spawn_category: None, is_spawnable: true, is_summonable: true, runtime_id: None, height: Some(9800), width: Some(6000) }
    } else
    if i == 23 {
        EntityDefinitionData { id: 23, identifier: "minecraft:cow", spawn_category: Some("creature"), is_spawnable: true, is_summonable: true, runtime_id: None, height: Some(13000), width: Some(9000) }
    } else
    if i == 24 {
        EntityDefinitionData { id: 24, identifier: "minecraft:creaking", spawn_category: Some("monster"), is_spawnable: true, is_summonable: true, runtime_id: None, height: Some(27000), width: Some(9000) }
    } else
    if i == 25 {
        EntityDefinitionData { id: 25, identifier: "minecraft:creeper", spawn_category: Some("monster"), is_spawnable: true, is_summonable: true, runtime_id: None, height: Some(18000), width: Some(6000) }
    } else
    if i == 26 {
        EntityDefinitionData { id: 26, identifier: "minecraft:dolphin", spawn_category: Some("water_creature"), is_spawnable: true, is_summonable: true, runtime_id: None, height: Some(6000), width: Some(9000) }
    } else
    if i == 27 {
        EntityDefinitionData { id: 27, identifier: "minecraft:donkey", spawn_category: Some("creature"), is_spawnable: true, is_summonable: true, runtime_id: None, height: Some(16000), width: Some(14000) }
    } else
    if i == 28 {
        EntityDefinitionData { id: 28, identifier: "minecraft:dragon_fireball", spawn_category: None, is_spawnable: false, is_summonable: false, runtime_id: None, height: Some(3100), width: Some(3100) }
    } else
    if i == 29 {
        EntityDefinitionData { id: 29, identifier: "minecraft:drowned", spawn_category: Some("monster"), is_spawnable: true, is_summonable: true, runtime_id: None, height: Some(19000), width: Some(6000) }
    } else
    if i == 30 {
        EntityDefinitionData { id: 30, identifier: "minecraft:egg", spawn_category: None, is_spawnable: false, is_summonable: true, runtime_id: None, height: Some(2500), width: Some(2500) }
    } else
    if i == 31 {
        EntityDefinitionData { id: 31, identifier: "minecraft:elder_guardian", spawn_category: Some("monster"), is_spawnable: true, is_summonable: true, runtime_id: None, height: Some(19900), width: Some(19900) }
    } else
    if i == 32 {
        EntityDefinitionData { id: 32, identifier: "minecraft:ender_crystal", spawn_category: None, is_spawnable: false, is_summonable: true, runtime_id: None, height: Some(20000), width: Some(20000) }
    } else
    if i == 33 {
        EntityDefinitionData { id: 33, identifier: "minecraft:ender_dragon", spawn_category: Some("monster"), is_spawnable: true, is_summonable: true, runtime_id: None, height: Some(40000), width: Some(130000) }
    } else
    if i == 34 {
        EntityDefinitionData { id: 34, identifier: "minecraft:ender_pearl", spawn_category: None, is_spawnable: false, is_summonable: false, runtime_id: None, height: Some(2500), width: Some(2500) }
    } else
    if i == 35 {
        EntityDefinitionData { id: 35, identifier: "minecraft:enderman", spawn_category: Some("monster"), is_spawnable: true, is_summonable: true, runtime_id: None, height: Some(29000), width: Some(6000) }
    } else
    if i == 36 {
        EntityDefinitionData { id: 36, identifier: "minecraft:endermite", spawn_category: Some("monster"), is_spawnable: true, is_summonable: true, runtime_id: None, height: Some(3000), width: Some(4000) }
    } else
    if i == 37 {
        EntityDefinitionData { id: 37, identifier: "minecraft:evocation_illager", spawn_category: Some("monster"), is_spawnable: true, is_summonable: true, runtime_id: None, height: Some(19000), width: Some(6000) }
    } else
    if i == 38 {
        EntityDefinitionData { id: 38, identifier: "minecraft:eye_of_ender_signal", spawn_category: None, is_spawnable: false, is_summonable: false, runtime_id: None, height: Some(2500), width: Some(2500) }
    } else
    if i == 39 {
        EntityDefinitionData { id: 39, identifier: "minecraft:fireball", spawn_category: None, is_spawnable: false, is_summonable: false, runtime_id: None, height: Some(10000), width: Some(10000) }
    } else
    if i == 40 {
        EntityDefinitionData { id: 40, identifier: "minecraft:fireworks_rocket", spawn_category: None, is_spawnable: false, is_summonable: true, runtime_id: None, height: Some(2500), width: Some(2500) }
    } else
    if i == 41 {
        EntityDefinitionData { id: 41, identifier: "minecraft:fishing_hook", spawn_category: None, is_spawnable: false, is_summonable: false, runtime_id: None, height: Some(1500), width: Some(1500) }
    } else
    if i == 42 {
        EntityDefinitionData { id: 42, identifier: "minecraft:fox", spawn_category: Some("creature"), is_spawnable: true, is_summonable: true, runtime_id: None, height: Some(7000), width: Some(6000) }
    } else
    if i == 43 {
        EntityDefinitionData { id: 43, identifier: "minecraft:frog", spawn_category: Some("creature"), is_spawnable: true, is_summonable: true, runtime_id: None, height: Some(5500), width: Some(5000) }
    } else
    if i == 44 {
        EntityDefinitionData { id: 44, identifier: "minecraft:ghast", spawn_category: Some("monster"), is_spawnable: true, is_summonable: true, runtime_id: None, height: Some(40000), width: Some(40200) }
    } else
    if i == 45 {
        EntityDefinitionData { id: 45, identifier: "minecraft:glow_squid", spawn_category: Some("underground_water_creature"), is_spawnable: true, is_summonable: true, runtime_id: None, height: Some(8000), width: Some(8000) }
    } else
    if i == 46 {
        EntityDefinitionData { id: 46, identifier: "minecraft:goat", spawn_category: Some("creature"), is_spawnable: true, is_summonable: true, runtime_id: None, height: Some(13000), width: Some(9000) }
    } else
    if i == 47 {
        EntityDefinitionData { id: 47, identifier: "minecraft:guardian", spawn_category: Some("monster"), is_spawnable: true, is_summonable: true, runtime_id: None, height: Some(8500), width: Some(8500) }
    } else
    if i == 48 {
        EntityDefinitionData { id: 48, identifier: "minecraft:happy_ghast", spawn_category: Some("creature"), is_spawnable: true, is_summonable: true, runtime_id: None, height: Some(40000), width: Some(40000) }
    } else
    if i == 49 {
        EntityDefinitionData { id: 49, identifier: "minecraft:hoglin", spawn_category: Some("monster"), is_spawnable: true, is_summonable: true, runtime_id: None, height: Some(18000), width: Some(6000) }
    } else
    if i == 50 {
        EntityDefinitionData { id: 50, identifier: "minecraft:hopper_minecart", spawn_category: None, is_spawnable: false, is_summonable: true, runtime_id: None, height: Some(7000), width: Some(9800) }
    } else
    if i == 51 {
        EntityDefinitionData { id: 51, identifier: "minecraft:horse", spawn_category: Some("creature"), is_spawnable: true, is_summonable: true, runtime_id: None, height: Some(16000), width: Some(14000) }
    } else
    if i == 52 {
        EntityDefinitionData { id: 52, identifier: "minecraft:husk", spawn_category: Some("monster"), is_spawnable: true, is_summonable: true, runtime_id: None, height: Some(19000), width: Some(6000) }
    } else
    if i == 53 {
        EntityDefinitionData { id: 53, identifier: "minecraft:iron_golem", spawn_category: None, is_spawnable: true, is_summonable: true, runtime_id: None, height: Some(29000), width: Some(14000) }
    } else
    if i == 54 {
        EntityDefinitionData { id: 54, identifier: "minecraft:lightning_bolt", spawn_category: None, is_spawnable: false, is_summonable: true, runtime_id: None, height: Some(18000), width: Some(6000) }
    } else
    if i == 55 {
        EntityDefinitionData { id: 55, identifier: "minecraft:lingering_potion", spawn_category: None, is_spawnable: false, is_summonable: false, runtime_id: None, height: Some(2500), width: Some(2500) }
    } else
    if i == 56 {
        EntityDefinitionData { id: 56, identifier: "minecraft:llama", spawn_category: Some("creature"), is_spawnable: true, is_summonable: true, runtime_id: None, height: Some(18700), width: Some(9000) }
    } else
    if i == 57 {
        EntityDefinitionData { id: 57, identifier: "minecraft:llama_spit", spawn_category: Some("misc"), is_spawnable: false, is_summonable: false, runtime_id: None, height: Some(3100), width: Some(3100) }
    } else
    if i == 58 {
        EntityDefinitionData { id: 58, identifier: "minecraft:magma_cube", spawn_category: Some("monster"), is_spawnable: true, is_summonable: true, runtime_id: None, height: Some(20800), width: Some(20800) }
    } else
    if i == 59 {
        EntityDefinitionData { id: 59, identifier: "minecraft:minecart", spawn_category: None, is_spawnable: false, is_summonable: true, runtime_id: None, height: Some(7000), width: Some(9800) }
    } else
    if i == 60 {
        EntityDefinitionData { id: 60, identifier: "minecraft:mooshroom", spawn_category: Some("creature"), is_spawnable: true, is_summonable: true, runtime_id: None, height: Some(13000), width: Some(9000) }
    } else
    if i == 61 {
        EntityDefinitionData { id: 61, identifier: "minecraft:mule", spawn_category: Some("creature"), is_spawnable: true, is_summonable: true, runtime_id: None, height: Some(16000), width: Some(14000) }
    } else
    if i == 62 {
        EntityDefinitionData { id: 62, identifier: "minecraft:nautilus", spawn_category: None, is_spawnable: true, is_summonable: true, runtime_id: None, height: Some(18000), width: Some(6000) }
    } else
    if i == 63 {
        EntityDefinitionData { id: 63, identifier: "minecraft:npc", spawn_category: Some("creature"), is_spawnable: true, is_summonable: true, runtime_id: None, height: Some(21000), width: Some(6000) }
    } else
    if i == 64 {
        EntityDefinitionData { id: 64, identifier: "minecraft:ocelot", spawn_category: Some("creature"), is_spawnable: true, is_summonable: true, runtime_id: None, height: Some(7000), width: Some(6000) }
    } else
    if i == 65 {
        EntityDefinitionData { id: 65, identifier: "minecraft:ominous_item_spawner", spawn_category: None, is_spawnable: false, is_summonable: false, runtime_id: None, height: Some(18000), width: Some(6000) }
    } else
    if i == 66 {
        EntityDefinitionData { id: 66, identifier: "minecraft:panda", spawn_category: Some("creature"), is_spawnable: true, is_summonable: true, runtime_id: None, height: Some(12500), width: Some(13000) }
    } else
    if i == 67 {
        EntityDefinitionData { id: 67, identifier: "minecraft:parched", spawn_category: Some("monster"), is_spawnable: true, is_summonable: true, runtime_id: None, height: Some(19000), width: Some(6000) }
    } else
    if i == 68 {
        EntityDefinitionData { id: 68, identifier: "minecraft:parrot", spawn_category: Some("creature"), is_spawnable: true, is_summonable: true, runtime_id: None, height: Some(10000), width: Some(5000) }
    } else
    if i == 69 {
        EntityDefinitionData { id: 69, identifier: "minecraft:phantom", spawn_category: Some("monster"), is_spawnable: true, is_summonable: true, runtime_id: None, height: Some(5000), width: Some(9000) }
    } else
    if i == 70 {
        EntityDefinitionData { id: 70, identifier: "minecraft:pig", spawn_category: Some("creature"), is_spawnable: true, is_summonable: true, runtime_id: None, height: Some(9000), width: Some(9000) }
    } else
    if i == 71 {
        EntityDefinitionData { id: 71, identifier: "minecraft:piglin", spawn_category: Some("monster"), is_spawnable: true, is_summonable: true, runtime_id: None, height: Some(19000), width: Some(6000) }
    } else
    if i == 72 {
        EntityDefinitionData { id: 72, identifier: "minecraft:piglin_brute", spawn_category: Some("monster"), is_spawnable: true, is_summonable: true, runtime_id: None, height: Some(19000), width: Some(6000) }
    } else
    if i == 73 {
        EntityDefinitionData { id: 73, identifier: "minecraft:pillager", spawn_category: Some("monster"), is_spawnable: true, is_summonable: true, runtime_id: None, height: Some(19000), width: Some(6000) }
    } else
    if i == 74 {
        EntityDefinitionData { id: 74, identifier: "minecraft:player", spawn_category: Some("creature"), is_spawnable: false, is_summonable: false, runtime_id: None, height: Some(18000), width: Some(6000) }
    } else
    if i == 75 {
        EntityDefinitionData { id: 75, identifier: "minecraft:polar_bear", spawn_category: Some("creature"), is_spawnable: true, is_summonable: true, runtime_id: None, height: Some(14000), width: Some(14000) }
    } else
    if i == 76 {
        EntityDefinitionData { id: 76, identifier: "minecraft:pufferfish", spawn_category: Some("water_ambient"), is_spawnable: true, is_summonable: true, runtime_id: None, height: Some(8000), width: Some(8000) }
    } else
    if i == 77 {
        EntityDefinitionData { id: 77, identifier: "minecraft:rabbit", spawn_category: Some("creature"), is_spawnable: true, is_summonable: true, runtime_id: None, height: Some(6700), width: Some(6700) }
    } else
    if i == 78 {
        EntityDefinitionData { id: 78, identifier: "minecraft:ravager", spawn_category: Some("monster"), is_spawnable: true, is_summonable: true, runtime_id: None, height: Some(22000), width: Some(19500) }
    } else
    if i == 79 {
        EntityDefinitionData { id: 79, identifier: "minecraft:salmon", spawn_category: Some("water_ambient"), is_spawnable: true, is_summonable: true, runtime_id: None, height: Some(5000), width: Some(5000) }
    } else
    if i == 80 {
        EntityDefinitionData { id: 80, identifier: "minecraft:sheep", spawn_category: Some("creature"), is_spawnable: true, is_summonable: true, runtime_id: None, height: Some(13000), width: Some(9000) }
    } else
    if i == 81 {
        EntityDefinitionData { id: 81, identifier: "minecraft:shulker", spawn_category: Some("monster"), is_spawnable: true, is_summonable: true, runtime_id: None, height: Some(18000), width: Some(6000) }
    } else
    if i == 82 {
        EntityDefinitionData { id: 82, identifier: "minecraft:shulker_bullet", spawn_category: None, is_spawnable: false, is_summonable: false, runtime_id: None, height: Some(6250), width: Some(6250) }
    } else
    if i == 83 {
        EntityDefinitionData { id: 83, identifier: "minecraft:silverfish", spawn_category: Some("monster"), is_spawnable: true, is_summonable: true, runtime_id: None, height: Some(3000), width: Some(4000) }
    } else
    if i == 84 {
        EntityDefinitionData { id: 84, identifier: "minecraft:skeleton", spawn_category: Some("monster"), is_spawnable: true, is_summonable: true, runtime_id: None, height: Some(19000), width: Some(6000) }
    } else
    if i == 85 {
        EntityDefinitionData { id: 85, identifier: "minecraft:skeleton_horse", spawn_category: Some("creature"), is_spawnable: true, is_summonable: true, runtime_id: None, height: Some(18000), width: Some(6000) }
    } else
    if i == 86 {
        EntityDefinitionData { id: 86, identifier: "minecraft:slime", spawn_category: Some("monster"), is_spawnable: true, is_summonable: true, runtime_id: None, height: Some(20800), width: Some(20800) }
    } else
    if i == 87 {
        EntityDefinitionData { id: 87, identifier: "minecraft:small_fireball", spawn_category: None, is_spawnable: false, is_summonable: false, runtime_id: None, height: Some(3100), width: Some(3100) }
    } else
    if i == 88 {
        EntityDefinitionData { id: 88, identifier: "minecraft:sniffer", spawn_category: Some("creature"), is_spawnable: true, is_summonable: true, runtime_id: None, height: Some(17500), width: Some(19000) }
    } else
    if i == 89 {
        EntityDefinitionData { id: 89, identifier: "minecraft:snow_golem", spawn_category: None, is_spawnable: true, is_summonable: true, runtime_id: None, height: Some(18000), width: Some(4000) }
    } else
    if i == 90 {
        EntityDefinitionData { id: 90, identifier: "minecraft:snowball", spawn_category: None, is_spawnable: false, is_summonable: true, runtime_id: None, height: Some(2500), width: Some(2500) }
    } else
    if i == 91 {
        EntityDefinitionData { id: 91, identifier: "minecraft:spider", spawn_category: Some("monster"), is_spawnable: true, is_summonable: true, runtime_id: None, height: Some(9000), width: Some(14000) }
    } else
    if i == 92 {
        EntityDefinitionData { id: 92, identifier: "minecraft:splash_potion", spawn_category: None, is_spawnable: false, is_summonable: true, runtime_id: None, height: Some(2500), width: Some(2500) }
    } else
    if i == 93 {
        EntityDefinitionData { id: 93, identifier: "minecraft:squid", spawn_category: Some("water_creature"), is_spawnable: true, is_summonable: true, runtime_id: None, height: Some(8000), width: Some(8000) }
    } else
    if i == 94 {
        EntityDefinitionData { id: 94, identifier: "minecraft:stray", spawn_category: Some("monster"), is_spawnable: true, is_summonable: true, runtime_id: None, height: Some(19000), width: Some(6000) }
    } else
    if i == 95 {
        EntityDefinitionData { id: 95, identifier: "minecraft:strider", spawn_category: Some("creature"), is_spawnable: true, is_summonable: true, runtime_id: None, height: Some(17000), width: Some(9000) }
    } else
    if i == 96 {
        EntityDefinitionData { id: 96, identifier: "minecraft:tadpole", spawn_category: Some("creature"), is_spawnable: true, is_summonable: true, runtime_id: None, height: Some(6000), width: Some(8000) }
    } else
    if i == 97 {
        EntityDefinitionData { id: 97, identifier: "minecraft:thrown_trident", spawn_category: None, is_spawnable: false, is_summonable: false, runtime_id: None, height: Some(3500), width: Some(2500) }
    } else
    if i == 98 {
        EntityDefinitionData { id: 98, identifier: "minecraft:tnt", spawn_category: None, is_spawnable: false, is_summonable: true, runtime_id: None, height: Some(9800), width: Some(9800) }
    } else
    if i == 99 {
        EntityDefinitionData { id: 99, identifier: "minecraft:tnt_minecart", spawn_category: None, is_spawnable: false, is_summonable: true, runtime_id: None, height: Some(7000), width: Some(9800) }
    } else
    if i == 100 {
        EntityDefinitionData { id: 100, identifier: "minecraft:trader_llama", spawn_category: Some("creature"), is_spawnable: true, is_summonable: true, runtime_id: None, height: Some(18700), width: Some(9000) }
    } else
    if i == 101 {
        EntityDefinitionData { id: 101, identifier: "minecraft:tripod_camera", spawn_category: None, is_spawnable: false, is_summonable: false, runtime_id: None, height: Some(18000), width: Some(7500) }
    } else
    if i == 102 {
        EntityDefinitionData { id: 102, identifier: "minecraft:tropicalfish", spawn_category: Some("water_ambient"), is_spawnable: true, is_summonable: true, runtime_id: None, height: Some(4000), width: Some(4000) }
    } else
    if i == 103 {
        EntityDefinitionData { id: 103, identifier: "minecraft:turtle", spawn_category: Some("creature"), is_spawnable: true, is_summonable: true, runtime_id: None, height: Some(18000), width: Some(6000) }
    } else
    if i == 104 {
        EntityDefinitionData { id: 104, identifier: "minecraft:vex", spawn_category: Some("monster"), is_spawnable: true, is_summonable: true, runtime_id: None, height: Some(8000), width: Some(4000) }
    } else
    if i == 105 {
        EntityDefinitionData { id: 105, identifier: "minecraft:villager", spawn_category: None, is_spawnable: true, is_summonable: true, runtime_id: None, height: Some(19000), width: Some(6000) }
    } else
    if i == 106 {
        EntityDefinitionData { id: 106, identifier: "minecraft:villager_v2", spawn_category: None, is_spawnable: true, is_summonable: false, runtime_id: None, height: Some(19000), width: Some(6000) }
    } else
    if i == 107 {
        EntityDefinitionData { id: 107, identifier: "minecraft:vindicator", spawn_category: Some("monster"), is_spawnable: true, is_summonable: true, runtime_id: None, height: Some(19000), width: Some(6000) }
    } else
    if i == 108 {
        EntityDefinitionData { id: 108, identifier: "minecraft:wandering_trader", spawn_category: Some("creature"), is_spawnable: true, is_summonable: true, runtime_id: None, height: Some(19000), width: Some(6000) }
    } else
    if i == 109 {
        EntityDefinitionData { id: 109, identifier: "minecraft:warden", spawn_category: Some("monster"), is_spawnable: true, is_summonable: true, runtime_id: None, height: Some(29000), width: Some(9000) }
    } else
    if i == 110 {
        EntityDefinitionData { id: 110, identifier: "minecraft:wind_charge_projectile", spawn_category: None, is_spawnable: false, is_summonable: true, runtime_id: None, height: Some(3125), width: Some(3125) }
    } else
    if i == 111 {
        EntityDefinitionData { id: 111, identifier: "minecraft:witch", spawn_category: Some("monster"), is_spawnable: true, is_summonable: true, runtime_id: None, height: Some(19000), width: Some(6000) }
    } else
    if i == 112 {
        EntityDefinitionData { id: 112, identifier: "minecraft:wither", spawn_category: Some("monster"), is_spawnable: true, is_summonable: true, runtime_id: None, height: Some(30000), width: Some(10000) }
    } else
    if i == 113 {
        EntityDefinitionData { id: 113, identifier: "minecraft:wither_skeleton", spawn_category: Some("monster"), is_spawnable: true, is_summonable: true, runtime_id: None, height: Some(20100), width: Some(7200) }
    } else
    if i == 114 {
        EntityDefinitionData { id: 114, identifier: "minecraft:wither_skull", spawn_category: None, is_spawnable: false, is_summonable: false, runtime_id: None, height: Some(1500), width: Some(1500) }
    } else
    if i == 115 {
        EntityDefinitionData { id: 115, identifier: "minecraft:wither_skull_dangerous", spawn_category: None, is_spawnable: false, is_summonable: false, runtime_id: None, height: Some(1500), width: Some(1500) }
    } else
    if i == 116 {
        EntityDefinitionData { id: 116, identifier: "minecraft:wolf", spawn_category: Some("creature"), is_spawnable: true, is_summonable: true, runtime_id: None, height: Some(8000), width: Some(6000) }
    } else
    if i == 117 {
        EntityDefinitionData { id: 117, identifier: "minecraft:xp_bottle", spawn_category: None, is_spawnable: false, is_summonable: true, runtime_id: None, height: Some(2500), width: Some(2500) }
    } else
    if i == 118 {
        EntityDefinitionData { id: 118, identifier: "minecraft:xp_orb", spawn_category: None, is_spawnable: false, is_summonable: true, runtime_id: None, height: Some(2500), width: Some(2500) }
    } else
    if i == 119 {
        EntityDefinitionData { id: 119, identifier: "minecraft:zoglin", spawn_category: Some("monster"), is_spawnable: true, is_summonable: true, runtime_id: None, height: Some(18000), width: Some(6000) }
    } else
    if i == 120 {
        EntityDefinitionData { id: 120, identifier: "minecraft:zombie", spawn_category: Some("monster"), is_spawnable: true, is_summonable: true, runtime_id: None, height: Some(19000), width: Some(6000) }
    } else
    if i == 121 {
        EntityDefinitionData { id: 121, identifier: "minecraft:zombie_horse", spawn_category: Some("monster"), is_spawnable: true, is_summonable: true, runtime_id: None, height: Some(16000), width: Some(14000) }
    } else
    if i == 122 {
        EntityDefinitionData { id: 122, identifier: "minecraft:zombie_nautilus", spawn_category: None, is_spawnable: true, is_summonable: true, runtime_id: None, height: Some(9500), width: Some(8750) }
    } else
    if i == 123 {
        EntityDefinitionData { id: 123, identifier: "minecraft:zombie_pigman", spawn_category: None, is_spawnable: true, is_summonable: true, runtime_id: None, height: Some(19000), width: Some(6000) }
    } else
    if i == 124 {
        EntityDefinitionData { id: 124, identifier: "minecraft:zombie_villager", spawn_category: Some("monster"), is_spawnable: true, is_summonable: true, runtime_id: None, height: Some(19000), width: Some(6000) }
    } else {
        EntityDefinitionData { id: 125, identifier: "minecraft:zombie_villager_v2", spawn_category: None, is_spawnable: true, is_summonable: false, runtime_id: None, height: Some(19000), width: Some(6000) }
    }
}

/// The identifier of the registry record at position `i`, as characters.
pub open spec fn registry_identifier(i: int) -> Seq<char> {
    registry_record(i).identifier@
}

/// The registry record at position `index`.
fn registry_record_at(index: usize) -> (record: EntityDefinitionData)
    requires
        index < ENTITY_COUNT,
    ensures
        record == registry_record(index as int),
{
    match index {
        0 => EntityDefinitionData { id: 0, identifier: "minecraft:allay", spawn_category: Some("creature"), is_spawnable: true, is_summonable: true, runtime_id: None, height: Some(6000), width: Some(3500) },
        1 => EntityDefinitionData { id: 1, identifier: "minecraft:area_effect_cloud", spawn_category: None, is_spawnable: false, is_summonable: false, runtime_id: None, height: Some(18000), width: Some(6000) },
        2 => EntityDefinitionData { id: 2, identifier: "minecraft:armadillo", spawn_category: Some("creature"), is_spawnable: true, is_summonable: true, runtime_id: None, height: Some(6500), width: Some(7000) },
        3 => EntityDefinitionData { id: 3, identifier: "minecraft:armor_stand", spawn_category: None, is_spawnable: false, is_summonable: true, runtime_id: None, height: Some(19750), width: Some(5000) },
        4 => EntityDefinitionData { id: 4, identifier: "minecraft:arrow", spawn_category: None, is_spawnable: false, is_summonable: true, runtime_id: None, height: Some(2500), width: Some(2500) },
        5 => EntityDefinitionData { id: 5, identifier: "minecraft:axolotl", spawn_category: Some("axolotls"), is_spawnable: true, is_summonable: true, runtime_id: None, height: Some(4200), width: Some(7500) },
        6 => EntityDefinitionData { id: 6, identifier: "minecraft:bat", spawn_category: Some("ambient"), is_spawnable: true, is_summonable: true, runtime_id: None, height: Some(9000), width: Some(5000) },
        7 => EntityDefinitionData { id: 7, identifier: "minecraft:bee", spawn_category: Some("creature"), is_spawnable: true, is_summonable: true, runtime_id: None, height: Some(5000), width: Some(5500) },
        8 => EntityDefinitionData { id: 8, identifier: "minecraft:blaze", spawn_category: Some("monster"), is_spawnable: true, is_summonable: true, runtime_id: None, height: Some(18000), width: Some(5000) },
        9 => EntityDefinitionData { id: 9, identifier: "minecraft:boat", spawn_category: None, is_spawnable: false, is_summonable: true, runtime_id: None, height: Some(4550), width: Some(14000) },
        10 => EntityDefinitionData { id: 10, identifier: "minecraft:bogged", spawn_category: Some("monster"), is_spawnable: true, is_summonable: true, runtime_id: None, height: Some(19000), width: Some(6000) },
        11 => EntityDefinitionData { id: 11, identifier: "minecraft:breeze", spawn_category: Some("monster"), is_spawnable: true, is_summonable: true, runtime_id: None, height: Some(17700), width: Some(6000) },
        12 => EntityDefinitionData { id: 12, identifier: "minecraft:breeze_wind_charge_projectile", spawn_category: None, is_spawnable: false, is_summonable: false, runtime_id: None, height: Some(3125), width: Some(3125) },
        13 => EntityDefinitionData { id: 13, identifier: "minecraft:camel", spawn_category: Some("creature"), is_spawnable: true, is_summonable: true, runtime_id: None, height: Some(23750), width: Some(17000) },
        14 => EntityDefinitionData { id: 14, identifier: "minecraft:camel_husk", spawn_category: Some("monster"), is_spawnable: true, is_summonable: true, runtime_id: None, height: Some(23750), width: Some(17000) },
        15 => EntityDefinitionData { id: 15, identifier: "minecraft:cat", spawn_category: Some("creature"), is_spawnable: true, is_summonable: true, runtime_id: None, height: Some(7000), width: Some(6000) },
        16 => EntityDefinitionData { id: 16, identifier: "minecraft:cave_spider", spawn_category: Some("monster"), is_spawnable: true, is_summonable: true, runtime_id: None, height: Some(5000), width: Some(7000) },
        17 => EntityDefinitionData { id: 17, identifier: "minecraft:chest_boat", spawn_category: None, is_spawnable: false, is_summonable: true, runtime_id: None, height: Some(4550), width: Some(14000) },
        18 => EntityDefinitionData { id: 18, identifier: "minecraft:chest_minecart", spawn_category: None, is_spawnable: false, is_summonable: true, runtime_id: None, height: Some(7000), width: Some(9800) },
        19 => EntityDefinitionData { id: 19, identifier: "minecraft:chicken", spawn_category: Some("creature"), is_spawnable: true, is_summonable: true, runtime_id: None, height: Some(8000), width: Some(6000) },
        20 => EntityDefinitionData { id: 20, identifier: "minecraft:cod", spawn_category: Some("water_ambient"), is_spawnable: true, is_summonable: true, runtime_id: None, height: Some(3000), width: Some(6000) },
        21 => EntityDefinitionData { id: 21, identifier: "minecraft:command_block_minecart", spawn_category: None, is_spawnable: false, is_summonable: true, runtime_id: None, height: Some(7000), width: Some(9800) },
        22 => EntityDefinitionData { id: 22, identifier: "minecraft:copper_golem", spawn_category: None, is_spawnable: true, is_summonable: true, runtime_id: None, height: Some(9800), width: Some(6000) },
        23 => EntityDefinitionData { id: 23, identifier: "minecraft:cow", spawn_category: Some("creature"), is_spawnable: true, is_summonable: true, runtime_id: None, height: Some(13000), width: Some(9000) },
        24 => EntityDefinitionData { id: 24, identifier: "minecraft:creaking", spawn_category: Some("monster"), is_spawnable: true, is_summonable: true, runtime_id: None, height: Some(27000), width: Some(9000) },
        25 => EntityDefinitionData { id: 25, identifier: "minecraft:creeper", spawn_category: Some("monster"), is_spawnable: true, is_summonable: true, runtime_id: None, height: Some(18000), width: Some(6000) },
        26 => EntityDefinitionData { id: 26, identifier: "minecraft:dolphin", spawn_category: Some("water_creature"), is_spawnable: true, is_summonable: true, runtime_id: None, height: Some(6000), width: Some(9000) },
        27 => EntityDefinitionData { id: 27, identifier: "minecraft:donkey", spawn_category: Some("creature"), is_spawnable: true, is_summonable: true, runtime_id: None, height: Some(16000), width: Some(14000) },
        28 => EntityDefinitionData { id: 28, identifier: "minecraft:dragon_fireball", spawn_category: None, is_spawnable: false, is_summonable: false, runtime_id: None, height: Some(3100), width: Some(3100) },
        29 => EntityDefinitionData { id: 29, identifier: "minecraft:drowned", spawn_category: Some("monster"), is_spawnable: true, is_summonable: true, runtime_id: None, height: Some(19000), width: Some(6000) },
        30 => EntityDefinitionData { id: 30, identifier: "minecraft:egg", spawn_category: None, is_spawnable: false, is_summonable: true, runtime_id: None, height: Some(2500), width: Some(2500) },
        31 => EntityDefinitionData { id: 31, identifier: "minecraft:elder_guardian", spawn_category: Some("monster"), is_spawnable: true, is_summonable: true, runtime_id: None, height: Some(19900), width: Some(19900) },
        32 => EntityDefinitionData { id: 32, identifier: "minecraft:ender_crystal", spawn_category: None, is_spawnable: false, is_summonable: true, runtime_id: None, height: Some(20000), width: Some(20000) },
        33 => EntityDefinitionData { id: 33, identifier: "minecraft:ender_dragon", spawn_category: Some("monster"), is_spawnable: true, is_summonable: true, runtime_id: None, height: Some(40000), width: Some(130000) },
        34 => EntityDefinitionData { id: 34, identifier: "minecraft:ender_pearl", spawn_category: None, is_spawnable: false, is_summonable: false, runtime_id: None, height: Some(2500), width: Some(2500) },
        35 => EntityDefinitionData { id: 35, identifier: "minecraft:enderman", spawn_category: Some("monster"), is_spawnable: true, is_summonable: true, runtime_id: None, height: Some(29000), width: Some(6000) },
        36 => EntityDefinitionData { id: 36, identifier: "minecraft:endermite", spawn_category: Some("monster"), is_spawnable: true, is_summonable: true, runtime_id: None, height: Some(3000), width: Some(4000) },
        37 => EntityDefinitionData { id: 37, identifier: "minecraft:evocation_illager", spawn_category: Some("monster"), is_spawnable: true, is_summonable: true, runtime_id: None, height: Some(19000), width: Some(6000) },
        38 => EntityDefinitionData { id: 38, identifier: "minecraft:eye_of_ender_signal", spawn_category: None, is_spawnable: false, is_summonable: false, runtime_id: None, height: Some(2500), width: Some(2500) },
        39 => EntityDefinitionData { id: 39, identifier: "minecraft:fireball", spawn_category: None, is_spawnable: false, is_summonable: false, runtime_id: None, height: Some(10000), width: Some(10000) },
        40 => EntityDefinitionData { id: 40, identifier: "minecraft:fireworks_rocket", spawn_category: None, is_spawnable: false, is_summonable: true, runtime_id: None, height: Some(2500), width: Some(2500) },
        41 => EntityDefinitionData { id: 41, identifier: "minecraft:fishing_hook", spawn_category: None, is_spawnable: false, is_summonable: false, runtime_id: None, height: Some(1500), width: Some(1500) },
        42 => EntityDefinitionData { id: 42, identifier: "minecraft:fox", spawn_category: Some("creature"), is_spawnable: true, is_summonable: true, runtime_id: None, height: Some(7000), width: Some(6000) },
        43 => EntityDefinitionData { id: 43, identifier: "minecraft:frog", spawn_category: Some("creature"), is_spawnable: true, is_summonable: true, runtime_id: None, height: Some(5500), width: Some(5000) },
        44 => EntityDefinitionData { id: 44, identifier: "minecraft:ghast", spawn_category: Some("monster"), is_spawnable: true, is_summonable: true, runtime_id: None, height: Some(40000), width: Some(40200) },
        45 => EntityDefinitionData { id: 45, identifier: "minecraft:glow_squid", spawn_category: Some("underground_water_creature"), is_spawnable: true, is_summonable: true, runtime_id: None, height: Some(8000), width: Some(8000) },
        46 => EntityDefinitionData { id: 46, identifier: "minecraft:goat", spawn_category: Some("creature"), is_spawnable: true, is_summonable: true, runtime_id: None, height: Some(13000), width: Some(9000) },
        47 => EntityDefinitionData { id: 47, identifier: "minecraft:guardian", spawn_category: Some("monster"), is_spawnable: true, is_summonable: true, runtime_id: None, height: Some(8500), width: Some(8500) },
        48 => EntityDefinitionData { id: 48, identifier: "minecraft:happy_ghast", spawn_category: Some("creature"), is_spawnable: true, is_summonable: true, runtime_id: None, height: Some(40000), width: Some(40000) },
        49 => EntityDefinitionData { id: 49, identifier: "minecraft:hoglin", spawn_category: Some("monster"), is_spawnable: true, is_summonable: true, runtime_id: None, height: Some(18000), width: Some(6000) },
        50 => EntityDefinitionData { id: 50, identifier: "minecraft:hopper_minecart", spawn_category: None, is_spawnable: false, is_summonable: true, runtime_id: None, height: Some(7000), width: Some(9800) },
        51 => EntityDefinitionData { id: 51, identifier: "minecraft:horse", spawn_category: Some("creature"), is_spawnable: true, is_summonable: true, runtime_id: None, height: Some(16000), width: Some(14000) },
        52 => EntityDefinitionData { id: 52, identifier: "minecraft:husk", spawn_category: Some("monster"), is_spawnable: true, is_summonable: true, runtime_id: None, height: Some(19000), width: Some(6000) },
        53 => EntityDefinitionData { id: 53, identifier: "minecraft:iron_golem", spawn_category: None, is_spawnable: true, is_summonable: true, runtime_id: None, height: Some(29000), width: Some(14000) },
        54 => EntityDefinitionData { id: 54, identifier: "minecraft:lightning_bolt", spawn_category: None, is_spawnable: false, is_summonable: true, runtime_id: None, height: Some(18000), width: Some(6000) },
        55 => EntityDefinitionData { id: 55, identifier: "minecraft:lingering_potion", spawn_category: None, is_spawnable: false, is_summonable: false, runtime_id: None, height: Some(2500), width: Some(2500) },
        56 => EntityDefinitionData { id: 56, identifier: "minecraft:llama", spawn_category: Some("creature"), is_spawnable: true, is_summonable: true, runtime_id: None, height: Some(18700), width: Some(9000) },
        57 => EntityDefinitionData { id: 57, identifier: "minecraft:llama_spit", spawn_category: Some("misc"), is_spawnable: false, is_summonable: false, runtime_id: None, height: Some(3100), width: Some(3100) },
        58 => EntityDefinitionData { id: 58, identifier: "minecraft:magma_cube", spawn_category: Some("monster"), is_spawnable: true, is_summonable: true, runtime_id: None, height: Some(20800), width: Some(20800) },
        59 => EntityDefinitionData { id: 59, identifier: "minecraft:minecart", spawn_category: None, is_spawnable: false, is_summonable: true, runtime_id: None, height: Some(7000), width: Some(9800) },
        60 => EntityDefinitionData { id: 60, identifier: "minecraft:mooshroom", spawn_category: Some("creature"), is_spawnable: true, is_summonable: true, runtime_id: None, height: Some(13000), width: Some(9000) },
        61 => EntityDefinitionData { id: 61, identifier: "minecraft:mule", spawn_category: Some("creature"), is_spawnable: true, is_summonable: true, runtime_id: None, height: Some(16000), width: Some(14000) },
        62 => EntityDefinitionData { id: 62, identifier: "minecraft:nautilus", spawn_category: None, is_spawnable: true, is_summonable: true, runtime_id: None, height: Some(18000), width: Some(6000) },
        63 => EntityDefinitionData { id: 63, identifier: "minecraft:npc", spawn_category: Some("creature"), is_spawnable: true, is_summonable: true, runtime_id: None, height: Some(21000), width: Some(6000) },
        64 => EntityDefinitionData { id: 64, identifier: "minecraft:ocelot", spawn_category: Some("creature"), is_spawnable: true, is_summonable: true, runtime_id: None, height: Some(7000), width: Some(6000) },
        65 => EntityDefinitionData { id: 65, identifier: "minecraft:ominous_item_spawner", spawn_category: None, is_spawnable: false, is_summonable: false, runtime_id: None, height: Some(18000), width: Some(6000) },
        66 => EntityDefinitionData { id: 66, identifier: "minecraft:panda", spawn_category: Some("creature"), is_spawnable: true, is_summonable: true, runtime_id: None, height: Some(12500), width: Some(13000) },
        67 => EntityDefinitionData { id: 67, identifier: "minecraft:parched", spawn_category: Some("monster"), is_spawnable: true, is_summonable: true, runtime_id: None, height: Some(19000), width: Some(6000) },
        68 => EntityDefinitionData { id: 68, identifier: "minecraft:parrot", spawn_category: Some("creature"), is_spawnable: true, is_summonable: true, runtime_id: None, height: Some(10000), width: Some(5000) },
        69 => EntityDefinitionData { id: 69, identifier: "minecraft:phantom", spawn_category: Some("monster"), is_spawnable: true, is_summonable: true, runtime_id: None, height: Some(5000), width: Some(9000) },
        70 => EntityDefinitionData { id: 70, identifier: "minecraft:pig", spawn_category: Some("creature"), is_spawnable: true, is_summonable: true, runtime_id: None, height: Some(9000), width: Some(9000) },
        71 => EntityDefinitionData { id: 71, identifier: "minecraft:piglin", spawn_category: Some("monster"), is_spawnable: true, is_summonable: true, runtime_id: None, height: Some(19000), width: Some(6000) },
        72 => EntityDefinitionData { id: 72, identifier: "minecraft:piglin_brute", spawn_category: Some("monster"), is_spawnable: true, is_summonable: true, runtime_id: None, height: Some(19000), width: Some(6000) },
        73 => EntityDefinitionData { id: 73, identifier: "minecraft:pillager", spawn_category: Some("monster"), is_spawnable: true, is_summonable: true, runtime_id: None, height: Some(19000), width: Some(6000) },
        74 => EntityDefinitionData { id: 74, identifier: "minecraft:player", spawn_category: Some("creature"), is_spawnable: false, is_summonable: false, runtime_id: None, height: Some(18000), width: Some(6000) },
        75 => EntityDefinitionData { id: 75, identifier: "minecraft:polar_bear", spawn_category: Some("creature"), is_spawnable: true, is_summonable: true, runtime_id: None, height: Some(14000), width: Some(14000) },
        76 => EntityDefinitionData { id: 76, identifier: "minecraft:pufferfish", spawn_category: Some("water_ambient"), is_spawnable: true, is_summonable: true, runtime_id: None, height: Some(8000), width: Some(8000) },
        77 => EntityDefinitionData { id: 77, identifier: "minecraft:rabbit", spawn_category: Some("creature"), is_spawnable: true, is_summonable: true, runtime_id: None, height: Some(6700), width: Some(6700) },
        78 => EntityDefinitionData { id: 78, identifier: "minecraft:ravager", spawn_category: Some("monster"), is_spawnable: true, is_summonable: true, runtime_id: None, height: Some(22000), width: Some(19500) },
        79 => EntityDefinitionData { id: 79, identifier: "minecraft:salmon", spawn_category: Some("water_ambient"), is_spawnable: true, is_summonable: true, runtime_id: None, height: Some(5000), width: Some(5000) },
        80 => EntityDefinitionData { id: 80, identifier: "minecraft:sheep", spawn_category: Some("creature"), is_spawnable: true, is_summonable: true, runtime_id: None, height: Some(13000), width: Some(9000) },
        81 => EntityDefinitionData { id: 81, identifier: "minecraft:shulker", spawn_category: Some("monster"), is_spawnable: true, is_summonable: true, runtime_id: None, height: Some(18000), width: Some(6000) },
        82 => EntityDefinitionData { id: 82, identifier: "minecraft:shulker_bullet", spawn_category: None, is_spawnable: false, is_summonable: false, runtime_id: None, height: Some(6250), width: Some(6250) },
        83 => EntityDefinitionData { id: 83, identifier: "minecraft:silverfish", spawn_category: Some("monster"), is_spawnable: true, is_summonable: true, runtime_id: None, height: Some(3000), width: Some(4000) },
        84 => EntityDefinitionData { id: 84, identifier: "minecraft:skeleton", spawn_category: Some("monster"), is_spawnable: true, is_summonable: true, runtime_id: None, height: Some(19000), width: Some(6000) },
        85 => EntityDefinitionData { id: 85, identifier: "minecraft:skeleton_horse", spawn_category: Some("creature"), is_spawnable: true, is_summonable: true, runtime_id: None, height: Some(18000), width: Some(6000) },
        86 => EntityDefinitionData { id: 86, identifier: "minecraft:slime", spawn_category: Some("monster"), is_spawnable: true, is_summonable: true, runtime_id: None, height: Some(20800), width: Some(20800) },
        87 => EntityDefinitionData { id: 87, identifier: "minecraft:small_fireball", spawn_category: None, is_spawnable: false, is_summonable: false, runtime_id: None, height: Some(3100), width: Some(3100) },
        88 => EntityDefinitionData { id: 88, identifier: "minecraft:sniffer", spawn_category: Some("creature"), is_spawnable: true, is_summonable: true, runtime_id: None, height: Some(17500), width: Some(19000) },
        89 => EntityDefinitionData { id: 89, identifier: "minecraft:snow_golem", spawn_category: None, is_spawnable: true, is_summonable: true, runtime_id: None, height: Some(18000), width: Some(4000) },
        90 => EntityDefinitionData { id: 90, identifier: "minecraft:snowball", spawn_category: None, is_spawnable: false, is_summonable: true, runtime_id: None, height: Some(2500), width: Some(2500) },
        91 => EntityDefinitionData { id: 91, identifier: "minecraft:spider", spawn_category: Some("monster"), is_spawnable: true, is_summonable: true, runtime_id: None, height: Some(9000), width: Some(14000) },
        92 => EntityDefinitionData { id: 92, identifier: "minecraft:splash_potion", spawn_category: None, is_spawnable: false, is_summonable: true, runtime_id: None, height: Some(2500), width: Some(2500) },
        93 => EntityDefinitionData { id: 93, identifier: "minecraft:squid", spawn_category: Some("water_creature"), is_spawnable: true, is_summonable: true, runtime_id: None, height: Some(8000), width: Some(8000) },
        94 => EntityDefinitionData { id: 94, identifier: "minecraft:stray", spawn_category: Some("monster"), is_spawnable: true, is_summonable: true, runtime_id: None, height: Some(19000), width: Some(6000) },
        95 => EntityDefinitionData { id: 95, identifier: "minecraft:strider", spawn_category: Some("creature"), is_spawnable: true, is_summonable: true, runtime_id: None, height: Some(17000), width: Some(9000) },
        96 => EntityDefinitionData { id: 96, identifier: "minecraft:tadpole", spawn_category: Some("creature"), is_spawnable: true, is_summonable: true, runtime_id: None, height: Some(6000), width: Some(8000) },
        97 => EntityDefinitionData { id: 97, identifier: "minecraft:thrown_trident", spawn_category: None, is_spawnable: false, is_summonable: false, runtime_id: None, height: Some(3500), width: Some(2500) },
        98 => EntityDefinitionData { id: 98, identifier: "minecraft:tnt", spawn_category: None, is_spawnable: false, is_summonable: true, runtime_id: None, height: Some(9800), width: Some(9800) },
        99 => EntityDefinitionData { id: 99, identifier: "minecraft:tnt_minecart", spawn_category: None, is_spawnable: false, is_summonable: true, runtime_id: None, height: Some(7000), width: Some(9800) },
        100 => EntityDefinitionData { id: 100, identifier: "minecraft:trader_llama", spawn_category: Some("creature"), is_spawnable: true, is_summonable: true, runtime_id: None, height: Some(18700), width: Some(9000) },
        101 => EntityDefinitionData { id: 101, identifier: "minecraft:tripod_camera", spawn_category: None, is_spawnable: false, is_summonable: false, runtime_id: None, height: Some(18000), width: Some(7500) },
        102 => EntityDefinitionData { id: 102, identifier: "minecraft:tropicalfish", spawn_category: Some("water_ambient"), is_spawnable: true, is_summonable: true, runtime_id: None, height: Some(4000), width: Some(4000) },
        103 => EntityDefinitionData { id: 103, identifier: "minecraft:turtle", spawn_category: Some("creature"), is_spawnable: true, is_summonable: true, runtime_id: None, height: Some(18000), width: Some(6000) },
        104 => EntityDefinitionData { id: 104, identifier: "minecraft:vex", spawn_category: Some("monster"), is_spawnable: true, is_summonable: true, runtime_id: None, height: Some(8000), width: Some(4000) },
        105 => EntityDefinitionData { id: 105, identifier: "minecraft:villager", spawn_category: None, is_spawnable: true, is_summonable: true, runtime_id: None, height: Some(19000), width: Some(6000) },
        106 => EntityDefinitionData { id: 106, identifier: "minecraft:villager_v2", spawn_category: None, is_spawnable: true, is_summonable: false, runtime_id: None, height: Some(19000), width: Some(6000) },
        107 => EntityDefinitionData { id: 107, identifier: "minecraft:vindicator", spawn_category: Some("monster"), is_spawnable: true, is_summonable: true, runtime_id: None, height: Some(19000), width: Some(6000) },
        108 => EntityDefinitionData { id: 108, identifier: "minecraft:wandering_trader", spawn_category: Some("creature"), is_spawnable: true, is_summonable: true, runtime_id: None, height: Some(19000), width: Some(6000) },
        109 => EntityDefinitionData { id: 109, identifier: "minecraft:warden", spawn_category: Some("monster"), is_spawnable: true, is_summonable: true, runtime_id: None, height: Some(29000), width: Some(9000) },
        110 => EntityDefinitionData { id: 110, identifier: "minecraft:wind_charge_projectile", spawn_category: None, is_spawnable: false, is_summonable: true, runtime_id: None, height: Some(3125), width: Some(3125) },
        111 => EntityDefinitionData { id: 111, identifier: "minecraft:witch", spawn_category: Some("monster"), is_spawnable: true, is_summonable: true, runtime_id: None, height: Some(19000), width: Some(6000) },
        112 => EntityDefinitionData { id: 112, identifier: "minecraft:wither", spawn_category: Some("monster"), is_spawnable: true, is_summonable: true, runtime_id: None, height: Some(30000), width: Some(10000) },
        113 => EntityDefinitionData { id: 113, identifier: "minecraft:wither_skeleton", spawn_category: Some("monster"), is_spawnable: true, is_summonable: true, runtime_id: None, height: Some(20100), width: Some(7200) },
        114 => EntityDefinitionData { id: 114, identifier: "minecraft:wither_skull", spawn_category: None, is_spawnable: false, is_summonable: false, runtime_id: None, height: Some(1500), width: Some(1500) },
        115 => EntityDefinitionData { id: 115, identifier: "minecraft:wither_skull_dangerous", spawn_category: None, is_spawnable: false, is_summonable: false, runtime_id: None, height: Some(1500), width: Some(1500) },
        116 => EntityDefinitionData { id: 116, identifier: "minecraft:wolf", spawn_category: Some("creature"), is_spawnable: true, is_summonable: true, runtime_id: None, height: Some(8000), width: Some(6000) },
        117 => EntityDefinitionData { id: 117, identifier: "minecraft:xp_bottle", spawn_category: None, is_spawnable: false, is_summonable: true, runtime_id: None, height: Some(2500), width: Some(2500) },
        118 => EntityDefinitionData { id: 118, identifier: "minecraft:xp_orb", spawn_category: None, is_spawnable: false, is_summonable: true, runtime_id: None, height: Some(2500), width: Some(2500) },
        119 => EntityDefinitionData { id: 119, identifier: "minecraft:zoglin", spawn_category: Some("monster"), is_spawnable: true, is_summonable: true, runtime_id: None, height: Some(18000), width: Some(6000) },
        120 => EntityDefinitionData { id: 120, identifier: "minecraft:zombie", spawn_category: Some("monster"), is_spawnable: true, is_summonable: true, runtime_id: None, height: Some(19000), width: Some(6000) },
        121 => EntityDefinitionData { id: 121, identifier: "minecraft:zombie_horse", spawn_category: Some("monster"), is_spawnable: true, is_summonable: true, runtime_id: None, height: Some(16000), width: Some(14000) },
        122 => EntityDefinitionData { id: 122, identifier: "minecraft:zombie_nautilus", spawn_category: None, is_spawnable: true, is_summonable: true, runtime_id: None, height: Some(9500), width: Some(8750) },
        123 => EntityDefinitionData { id: 123, identifier: "minecraft:zombie_pigman", spawn_category: None, is_spawnable: true, is_summonable: true, runtime_id: None, height: Some(19000), width: Some(6000) },
        124 => EntityDefinitionData { id: 124, identifier: "minecraft:zombie_villager", spawn_category: Some("monster"), is_spawnable: true, is_summonable: true, runtime_id: None, height: Some(19000), width: Some(6000) },
        _ => EntityDefinitionData { id: 125, identifier: "minecraft:zombie_villager_v2", spawn_category: None, is_spawnable: true, is_summonable: false, runtime_id: None, height: Some(19000), width: Some(6000) },
    }
}

/// All generated entity metadata, sorted by identifier-derived module name.
pub fn all_entities() -> (entities: Vec<EntityDefinitionData>)
    ensures
        entities.len() == ENTITY_COUNT,
        forall|i: int| 0 <= i < ENTITY_COUNT ==> entities[i] == registry_record(i),
{
    let mut entities: Vec<EntityDefinitionData> = Vec::new();
    let mut index: usize = 0;
    while index < ENTITY_COUNT
        invariant
            index <= ENTITY_COUNT,
            entities.len() == index,
            forall|i: int| 0 <= i < index ==> entities[i] == registry_record(i),
        decreases ENTITY_COUNT - index,
    {
        entities.push(registry_record_at(index));
        index = index + 1;
    }
    entities
}

/// The first record at a position from `start` on whose identifier is
/// `identifier`, if there is one.
pub open spec fn lookup_from(identifier: Seq<char>, start: int) -> Option<EntityDefinitionData>
    decreases ENTITY_COUNT - start,
{
    if start < 0 || start >= ENTITY_COUNT {
        None
    } else if registry_identifier(start) == identifier {
        Some(registry_record(start))
    } else {
        lookup_from(identifier, start + 1)
    }
}

/// The record whose identifier is `identifier`, if the registry holds one.
pub open spec fn lookup(identifier: Seq<char>) -> Option<EntityDefinitionData> {
    lookup_from(identifier, 0)
}

/// String equality, `<str as PartialEq>::eq` from std.
///
/// Trusted: two `&str` are equal exactly when they hold the same characters,
/// as std documents for string slices.
#[verifier::external_body]
fn str_eq(a: &str, b: &str) -> (equal: bool)
    ensures
        equal == (a@ == b@),
{
    a == b
}

/// Look up generated entity metadata by namespaced identifier.
pub fn get(identifier: &str) -> (found: Option<EntityDefinitionData>)
    ensures
        found == lookup(identifier@),
{
    let mut index: usize = 0;
    while index < ENTITY_COUNT
        invariant
            index <= ENTITY_COUNT,
            lookup(identifier@) == lookup_from(identifier@, index as int),
        decreases ENTITY_COUNT - index,
    {
        let record = registry_record_at(index);
        if str_eq(record.identifier, identifier) {
            return Some(record);
        }
        index = index + 1;
    }
    None
}

/// Each record's `id` is its position in the registry.
pub proof fn lemma_ids_follow_order(i: int)
    requires
        0 <= i < ENTITY_COUNT,
    ensures
        registry_record(i).id == i,
{
}

/// Every identifier in the registry is namespaced under `minecraft:`.
pub proof fn lemma_identifiers_namespaced(i: int)
    requires
        0 <= i < ENTITY_COUNT,
    ensures
        registry_identifier(i).len() > 10,
        registry_identifier(i).take(10) == "minecraft:"@,
{
    reveal_strlit("minecraft:");
    if i == 0 {
        reveal_strlit("minecraft:allay");
    } else     if i == 1 {
        reveal_strlit("minecraft:area_effect_cloud");
    } else     if i == 2 {
        reveal_strlit("minecraft:armadillo");
    } else     if i == 3 {
        reveal_strlit("minecraft:armor_stand");
    } else     if i == 4 {
        reveal_strlit("minecraft:arrow");
    } else     if i == 5 {
        reveal_strlit("minecraft:axolotl");
    } else     if i == 6 {
        reveal_strlit("minecraft:bat");
    } else     if i == 7 {
        reveal_strlit("minecraft:bee");
    } else     if i == 8 {
        reveal_strlit("minecraft:blaze");
    } else     if i == 9 {
        reveal_strlit("minecraft:boat");
    } else     if i == 10 {
        reveal_strlit("minecraft:bogged");
    } else     if i == 11 {
        reveal_strlit("minecraft:breeze");
    } else     if i == 12 {
        reveal_strlit("minecraft:breeze_wind_charge_projectile");
    } else     if i == 13 {
        reveal_strlit("minecraft:camel");
    } else     if i == 14 {
        reveal_strlit("minecraft:camel_husk");
    } else     if i == 15 {
        reveal_strlit("minecraft:cat");
    } else     if i == 16 {
        reveal_strlit("minecraft:cave_spider");
    } else     if i == 17 {
        reveal_strlit("minecraft:chest_boat");
    } else     if i == 18 {
        reveal_strlit("minecraft:chest_minecart");
    } else     if i == 19 {
        reveal_strlit("minecraft:chicken");
    } else     if i == 20 {
        reveal_strlit("minecraft:cod");
    } else     if i == 21 {
        reveal_strlit("minecraft:command_block_minecart");
    } else     if i == 22 {
        reveal_strlit("minecraft:copper_golem");
    } else     if i == 23 {
        reveal_strlit("minecraft:cow");
    } else     if i == 24 {
        reveal_strlit("minecraft:creaking");
    } else     if i == 25 {
        reveal_strlit("minecraft:creeper");
    } else     if i == 26 {
        reveal_strlit("minecraft:dolphin");
    } else     if i == 27 {
        reveal_strlit("minecraft:donkey");
    } else     if i == 28 {
        reveal_strlit("minecraft:dragon_fireball");
    } else     if i == 29 {
        reveal_strlit("minecraft:drowned");
    } else     if i == 30 {
        reveal_strlit("minecraft:egg");
    } else     if i == 31 {
        reveal_strlit("minecraft:elder_guardian");
    } else     if i == 32 {
        reveal_strlit("minecraft:ender_crystal");
    } else     if i == 33 {
        reveal_strlit("minecraft:ender_dragon");
    } else     if i == 34 {
        reveal_strlit("minecraft:ender_pearl");
    } else     if i == 35 {
        reveal_strlit("minecraft:enderman");
    } else     if i == 36 {
        reveal_strlit("minecraft:endermite");
    } else     if i == 37 {
        reveal_strlit("minecraft:evocation_illager");
    } else     if i == 38 {
        reveal_strlit("minecraft:eye_of_ender_signal");
    } else     if i == 39 {
        reveal_strlit("minecraft:fireball");
    } else     if i == 40 {
        reveal_strlit("minecraft:fireworks_rocket");
    } else     if i == 41 {
        reveal_strlit("minecraft:fishing_hook");
    } else     if i == 42 {
        reveal_strlit("minecraft:fox");
    } else     if i == 43 {
        reveal_strlit("minecraft:frog");
    } else     if i == 44 {
        reveal_strlit("minecraft:ghast");
    } else     if i == 45 {
        reveal_strlit("minecraft:glow_squid");
    } else     if i == 46 {
        reveal_strlit("minecraft:goat");
    } else     if i == 47 {
        reveal_strlit("minecraft:guardian");
    } else     if i == 48 {
        reveal_strlit("minecraft:happy_ghast");
    } else     if i == 49 {
        reveal_strlit("minecraft:hoglin");
    } else     if i == 50 {
        reveal_strlit("minecraft:hopper_minecart");
    } else     if i == 51 {
        reveal_strlit("minecraft:horse");
    } else     if i == 52 {
        reveal_strlit("minecraft:husk");
    } else     if i == 53 {
        reveal_strlit("minecraft:iron_golem");
    } else     if i == 54 {
        reveal_strlit("minecraft:lightning_bolt");
    } else     if i == 55 {
        reveal_strlit("minecraft:lingering_potion");
    } else     if i == 56 {
        reveal_strlit("minecraft:llama");
    } else     if i == 57 {
        reveal_strlit("minecraft:llama_spit");
    } else     if i == 58 {
        reveal_strlit("minecraft:magma_cube");
    } else     if i == 59 {
        reveal_strlit("minecraft:minecart");
    } else     if i == 60 {
        reveal_strlit("minecraft:mooshroom");
    } else     if i == 61 {
        reveal_strlit("minecraft:mule");
    } else     if i == 62 {
        reveal_strlit("minecraft:nautilus");
    } else     if i == 63 {
        reveal_strlit("minecraft:npc");
    } else     if i == 64 {
        reveal_strlit("minecraft:ocelot");
    } else     if i == 65 {
        reveal_strlit("minecraft:ominous_item_spawner");
    } else     if i == 66 {
        reveal_strlit("minecraft:panda");
    } else     if i == 67 {
        reveal_strlit("minecraft:parched");
    } else     if i == 68 {
        reveal_strlit("minecraft:parrot");
    } else     if i == 69 {
        reveal_strlit("minecraft:phantom");
    } else     if i == 70 {
        reveal_strlit("minecraft:pig");
    } else     if i == 71 {
        reveal_strlit("minecraft:piglin");
    } else     if i == 72 {
        reveal_strlit("minecraft:piglin_brute");
    } else     if i == 73 {
        reveal_strlit("minecraft:pillager");
    } else     if i == 74 {
        reveal_strlit("minecraft:player");
    } else     if i == 75 {
        reveal_strlit("minecraft:polar_bear");
    } else     if i == 76 {
        reveal_strlit("minecraft:pufferfish");
    } else     if i == 77 {
        reveal_strlit("minecraft:rabbit");
    } else     if i == 78 {
        reveal_strlit("minecraft:ravager");
    } else     if i == 79 {
        reveal_strlit("minecraft:salmon");
    } else     if i == 80 {
        reveal_strlit("minecraft:sheep");
    } else     if i == 81 {
        reveal_strlit("minecraft:shulker");
    } else     if i == 82 {
        reveal_strlit("minecraft:shulker_bullet");
    } else     if i == 83 {
        reveal_strlit("minecraft:silverfish");
    } else     if i == 84 {
        reveal_strlit("minecraft:skeleton");
    } else     if i == 85 {
        reveal_strlit("minecraft:skeleton_horse");
    } else     if i == 86 {
        reveal_strlit("minecraft:slime");
    } else     if i == 87 {
        reveal_strlit("minecraft:small_fireball");
    } else     if i == 88 {
        reveal_strlit("minecraft:sniffer");
    } else     if i == 89 {
        reveal_strlit("minecraft:snow_golem");
    } else     if i == 90 {
        reveal_strlit("minecraft:snowball");
    } else     if i == 91 {
        reveal_strlit("minecraft:spider");
    } else     if i == 92 {
        reveal_strlit("minecraft:splash_potion");
    } else     if i == 93 {
        reveal_strlit("minecraft:squid");
    } else     if i == 94 {
        reveal_strlit("minecraft:stray");
    } else     if i == 95 {
        reveal_strlit("minecraft:strider");
    } else     if i == 96 {
        reveal_strlit("minecraft:tadpole");
    } else     if i == 97 {
        reveal_strlit("minecraft:thrown_trident");
    } else     if i == 98 {
        reveal_strlit("minecraft:tnt");
    } else     if i == 99 {
        reveal_strlit("minecraft:tnt_minecart");
    } else     if i == 100 {
        reveal_strlit("minecraft:trader_llama");
    } else     if i == 101 {
        reveal_strlit("minecraft:tripod_camera");
    } else     if i == 102 {
        reveal_strlit("minecraft:tropicalfish");
    } else     if i == 103 {
        reveal_strlit("minecraft:turtle");
    } else     if i == 104 {
        reveal_strlit("minecraft:vex");
    } else     if i == 105 {
        reveal_strlit("minecraft:villager");
    } else     if i == 106 {
        reveal_strlit("minecraft:villager_v2");
    } else     if i == 107 {
        reveal_strlit("minecraft:vindicator");
    } else     if i == 108 {
        reveal_strlit("minecraft:wandering_trader");
    } else     if i == 109 {
        reveal_strlit("minecraft:warden");
    } else     if i == 110 {
        reveal_strlit("minecraft:wind_charge_projectile");
    } else     if i == 111 {
        reveal_strlit("minecraft:witch");
    } else     if i == 112 {
        reveal_strlit("minecraft:wither");
    } else     if i == 113 {
        reveal_strlit("minecraft:wither_skeleton");
    } else     if i == 114 {
        reveal_strlit("minecraft:wither_skull");
    } else     if i == 115 {
        reveal_strlit("minecraft:wither_skull_dangerous");
    } else     if i == 116 {
        reveal_strlit("minecraft:wolf");
    } else     if i == 117 {
        reveal_strlit("minecraft:xp_bottle");
    } else     if i == 118 {
        reveal_strlit("minecraft:xp_orb");
    } else     if i == 119 {
        reveal_strlit("minecraft:zoglin");
    } else     if i == 120 {
        reveal_strlit("minecraft:zombie");
    } else     if i == 121 {
        reveal_strlit("minecraft:zombie_horse");
    } else     if i == 122 {
        reveal_strlit("minecraft:zombie_nautilus");
    } else     if i == 123 {
        reveal_strlit("minecraft:zombie_pigman");
    } else     if i == 124 {
        reveal_strlit("minecraft:zombie_villager");
    } else     if i == 125 {
        reveal_strlit("minecraft:zombie_villager_v2");
    }
    assert(registry_identifier(i).take(10) =~= "minecraft:"@);
}

/// Each record's identifier comes strictly before the next record's.
proof fn lemma_adjacent_sorted(i: int)
    requires
        0 <= i < ENTITY_COUNT - 1,
    ensures
        char_seq_lt(registry_identifier(i), registry_identifier(i + 1)),
{
    if i == 0 {
        reveal_strlit("minecraft:allay");
        reveal_strlit("minecraft:area_effect_cloud");
        lemma_precedes_at("minecraft:allay"@, "minecraft:area_effect_cloud"@, 11);
    } else     if i == 1 {
        reveal_strlit("minecraft:area_effect_cloud");
        reveal_strlit("minecraft:armadillo");
        lemma_precedes_at("minecraft:area_effect_cloud"@, "minecraft:armadillo"@, 12);
    } else     if i == 2 {
        reveal_strlit("minecraft:armadillo");
        reveal_strlit("minecraft:armor_stand");
        lemma_precedes_at("minecraft:armadillo"@, "minecraft:armor_stand"@, 13);
    } else     if i == 3 {
        reveal_strlit("minecraft:armor_stand");
        reveal_strlit("minecraft:arrow");
        lemma_precedes_at("minecraft:armor_stand"@, "minecraft:arrow"@, 12);
    } else     if i == 4 {
        reveal_strlit("minecraft:arrow");
        reveal_strlit("minecraft:axolotl");
        lemma_precedes_at("minecraft:arrow"@, "minecraft:axolotl"@, 11);
    } else     if i == 5 {
        reveal_strlit("minecraft:axolotl");
        reveal_strlit("minecraft:bat");
        lemma_precedes_at("minecraft:axolotl"@, "minecraft:bat"@, 10);
    } else     if i == 6 {
        reveal_strlit("minecraft:bat");
        reveal_strlit("minecraft:bee");
        lemma_precedes_at("minecraft:bat"@, "minecraft:bee"@, 11);
    } else     if i == 7 {
        reveal_strlit("minecraft:bee");
        reveal_strlit("minecraft:blaze");
        lemma_precedes_at("minecraft:bee"@, "minecraft:blaze"@, 11);
    } else     if i == 8 {
        reveal_strlit("minecraft:blaze");
        reveal_strlit("minecraft:boat");
        lemma_precedes_at("minecraft:blaze"@, "minecraft:boat"@, 11);
    } else     if i == 9 {
        reveal_strlit("minecraft:boat");
        reveal_strlit("minecraft:bogged");
        lemma_precedes_at("minecraft:boat"@, "minecraft:bogged"@, 12);
    } else     if i == 10 {
        reveal_strlit("minecraft:bogged");
        reveal_strlit("minecraft:breeze");
        lemma_precedes_at("minecraft:bogged"@, "minecraft:breeze"@, 11);
    } else     if i == 11 {
        reveal_strlit("minecraft:breeze");
        reveal_strlit("minecraft:breeze_wind_charge_projectile");
        lemma_precedes_at("minecraft:breeze"@, "minecraft:breeze_wind_charge_projectile"@, 16);
    } else     if i == 12 {
        reveal_strlit("minecraft:breeze_wind_charge_projectile");
        reveal_strlit("minecraft:camel");
        lemma_precedes_at("minecraft:breeze_wind_charge_projectile"@, "minecraft:camel"@, 10);
    } else     if i == 13 {
        reveal_strlit("minecraft:camel");
        reveal_strlit("minecraft:camel_husk");
        lemma_precedes_at("minecraft:camel"@, "minecraft:camel_husk"@, 15);
    } else     if i == 14 {
        reveal_strlit("minecraft:camel_husk");
        reveal_strlit("minecraft:cat");
        lemma_precedes_at("minecraft:camel_husk"@, "minecraft:cat"@, 12);
    } else     if i == 15 {
        reveal_strlit("minecraft:cat");
        reveal_strlit("minecraft:cave_spider");
        lemma_precedes_at("minecraft:cat"@, "minecraft:cave_spider"@, 12);
    } else     if i == 16 {
        reveal_strlit("minecraft:cave_spider");
        reveal_strlit("minecraft:chest_boat");
        lemma_precedes_at("minecraft:cave_spider"@, "minecraft:chest_boat"@, 11);
    } else     if i == 17 {
        reveal_strlit("minecraft:chest_boat");
        reveal_strlit("minecraft:chest_minecart");
        lemma_precedes_at("minecraft:chest_boat"@, "minecraft:chest_minecart"@, 16);
    } else     if i == 18 {
        reveal_strlit("minecraft:chest_minecart");
        reveal_strlit("minecraft:chicken");
        lemma_precedes_at("minecraft:chest_minecart"@, "minecraft:chicken"@, 12);
    } else     if i == 19 {
        reveal_strlit("minecraft:chicken");
        reveal_strlit("minecraft:cod");
        lemma_precedes_at("minecraft:chicken"@, "minecraft:cod"@, 11);
    } else     if i == 20 {
        reveal_strlit("minecraft:cod");
        reveal_strlit("minecraft:command_block_minecart");
        lemma_precedes_at("minecraft:cod"@, "minecraft:command_block_minecart"@, 12);
    } else     if i == 21 {
        reveal_strlit("minecraft:command_block_minecart");
        reveal_strlit("minecraft:copper_golem");
        lemma_precedes_at("minecraft:command_block_minecart"@, "minecraft:copper_golem"@, 12);
    } else     if i == 22 {
        reveal_strlit("minecraft:copper_golem");
        reveal_strlit("minecraft:cow");
        lemma_precedes_at("minecraft:copper_golem"@, "minecraft:cow"@, 12);
    } else     if i == 23 {
        reveal_strlit("minecraft:cow");
        reveal_strlit("minecraft:creaking");
        lemma_precedes_at("minecraft:cow"@, "minecraft:creaking"@, 11);
    } else     if i == 24 {
        reveal_strlit("minecraft:creaking");
        reveal_strlit("minecraft:creeper");
        lemma_precedes_at("minecraft:creaking"@, "minecraft:creeper"@, 13);
    } else     if i == 25 {
        reveal_strlit("minecraft:creeper");
        reveal_strlit("minecraft:dolphin");
        lemma_precedes_at("minecraft:creeper"@, "minecraft:dolphin"@, 10);
    } else     if i == 26 {
        reveal_strlit("minecraft:dolphin");
        reveal_strlit("minecraft:donkey");
        lemma_precedes_at("minecraft:dolphin"@, "minecraft:donkey"@, 12);
    } else     if i == 27 {
        reveal_strlit("minecraft:donkey");
        reveal_strlit("minecraft:dragon_fireball");
        lemma_precedes_at("minecraft:donkey"@, "minecraft:dragon_fireball"@, 11);
    } else     if i == 28 {
        reveal_strlit("minecraft:dragon_fireball");
        reveal_strlit("minecraft:drowned");
        lemma_precedes_at("minecraft:dragon_fireball"@, "minecraft:drowned"@, 12);
    } else     if i == 29 {
        reveal_strlit("minecraft:drowned");
        reveal_strlit("minecraft:egg");
        lemma_precedes_at("minecraft:drowned"@, "minecraft:egg"@, 10);
    } else     if i == 30 {
        reveal_strlit("minecraft:egg");
        reveal_strlit("minecraft:elder_guardian");
        lemma_precedes_at("minecraft:egg"@, "minecraft:elder_guardian"@, 11);
    } else     if i == 31 {
        reveal_strlit("minecraft:elder_guardian");
        reveal_strlit("minecraft:ender_crystal");
        lemma_precedes_at("minecraft:elder_guardian"@, "minecraft:ender_crystal"@, 11);
    } else     if i == 32 {
        reveal_strlit("minecraft:ender_crystal");
        reveal_strlit("minecraft:ender_dragon");
        lemma_precedes_at("minecraft:ender_crystal"@, "minecraft:ender_dragon"@, 16);
    } else     if i == 33 {
        reveal_strlit("minecraft:ender_dragon");
        reveal_strlit("minecraft:ender_pearl");
        lemma_precedes_at("minecraft:ender_dragon"@, "minecraft:ender_pearl"@, 16);
    } else     if i == 34 {
        reveal_strlit("minecraft:ender_pearl");
        reveal_strlit("minecraft:enderman");
        lemma_precedes_at("minecraft:ender_pearl"@, "minecraft:enderman"@, 15);
    } else     if i == 35 {
        reveal_strlit("minecraft:enderman");
        reveal_strlit("minecraft:endermite");
        lemma_precedes_at("minecraft:enderman"@, "minecraft:endermite"@, 16);
    } else     if i == 36 {
        reveal_strlit("minecraft:endermite");
        reveal_strlit("minecraft:evocation_illager");
        lemma_precedes_at("minecraft:endermite"@, "minecraft:evocation_illager"@, 11);
    } else     if i == 37 {
        reveal_strlit("minecraft:evocation_illager");
        reveal_strlit("minecraft:eye_of_ender_signal");
        lemma_precedes_at("minecraft:evocation_illager"@, "minecraft:eye_of_ender_signal"@, 11);
    } else     if i == 38 {
        reveal_strlit("minecraft:eye_of_ender_signal");
        reveal_strlit("minecraft:fireball");
        lemma_precedes_at("minecraft:eye_of_ender_signal"@, "minecraft:fireball"@, 10);
    } else     if i == 39 {
        reveal_strlit("minecraft:fireball");
        reveal_strlit("minecraft:fireworks_rocket");
        lemma_precedes_at("minecraft:fireball"@, "minecraft:fireworks_rocket"@, 14);
    } else     if i == 40 {
        reveal_strlit("minecraft:fireworks_rocket");
        reveal_strlit("minecraft:fishing_hook");
        lemma_precedes_at("minecraft:fireworks_rocket"@, "minecraft:fishing_hook"@, 12);
    } else     if i == 41 {
        reveal_strlit("minecraft:fishing_hook");
        reveal_strlit("minecraft:fox");
        lemma_precedes_at("minecraft:fishing_hook"@, "minecraft:fox"@, 11);
    } else     if i == 42 {
        reveal_strlit("minecraft:fox");
        reveal_strlit("minecraft:frog");
        lemma_precedes_at("minecraft:fox"@, "minecraft:frog"@, 11);
    } else     if i == 43 {
        reveal_strlit("minecraft:frog");
        reveal_strlit("minecraft:ghast");
        lemma_precedes_at("minecraft:frog"@, "minecraft:ghast"@, 10);
    } else     if i == 44 {
        reveal_strlit("minecraft:ghast");
        reveal_strlit("minecraft:glow_squid");
        lemma_precedes_at("minecraft:ghast"@, "minecraft:glow_squid"@, 11);
    } else     if i == 45 {
        reveal_strlit("minecraft:glow_squid");
        reveal_strlit("minecraft:goat");
        lemma_precedes_at("minecraft:glow_squid"@, "minecraft:goat"@, 11);
    } else     if i == 46 {
        reveal_strlit("minecraft:goat");
        reveal_strlit("minecraft:guardian");
        lemma_precedes_at("minecraft:goat"@, "minecraft:guardian"@, 11);
    } else     if i == 47 {
        reveal_strlit("minecraft:guardian");
        reveal_strlit("minecraft:happy_ghast");
        lemma_precedes_at("minecraft:guardian"@, "minecraft:happy_ghast"@, 10);
    } else     if i == 48 {
        reveal_strlit("minecraft:happy_ghast");
        reveal_strlit("minecraft:hoglin");
        lemma_precedes_at("minecraft:happy_ghast"@, "minecraft:hoglin"@, 11);
    } else     if i == 49 {
        reveal_strlit("minecraft:hoglin");
        reveal_strlit("minecraft:hopper_minecart");
        lemma_precedes_at("minecraft:hoglin"@, "minecraft:hopper_minecart"@, 12);
    } else     if i == 50 {
        reveal_strlit("minecraft:hopper_minecart");
        reveal_strlit("minecraft:horse");
        lemma_precedes_at("minecraft:hopper_minecart"@, "minecraft:horse"@, 12);
    } else     if i == 51 {
        reveal_strlit("minecraft:horse");
        reveal_strlit("minecraft:husk");
        lemma_precedes_at("minecraft:horse"@, "minecraft:husk"@, 11);
    } else     if i == 52 {
        reveal_strlit("minecraft:husk");
        reveal_strlit("minecraft:iron_golem");
        lemma_precedes_at("minecraft:husk"@, "minecraft:iron_golem"@, 10);
    } else     if i == 53 {
        reveal_strlit("minecraft:iron_golem");
        reveal_strlit("minecraft:lightning_bolt");
        lemma_precedes_at("minecraft:iron_golem"@, "minecraft:lightning_bolt"@, 10);
    } else     if i == 54 {
        reveal_strlit("minecraft:lightning_bolt");
        reveal_strlit("minecraft:lingering_potion");
        lemma_precedes_at("minecraft:lightning_bolt"@, "minecraft:lingering_potion"@, 12);
    } else     if i == 55 {
        reveal_strlit("minecraft:lingering_potion");
        reveal_strlit("minecraft:llama");
        lemma_precedes_at("minecraft:lingering_potion"@, "minecraft:llama"@, 11);
    } else     if i == 56 {
        reveal_strlit("minecraft:llama");
        reveal_strlit("minecraft:llama_spit");
        lemma_precedes_at("minecraft:llama"@, "minecraft:llama_spit"@, 15);
    } else     if i == 57 {
        reveal_strlit("minecraft:llama_spit");
        reveal_strlit("minecraft:magma_cube");
        lemma_precedes_at("minecraft:llama_spit"@, "minecraft:magma_cube"@, 10);
    } else     if i == 58 {
        reveal_strlit("minecraft:magma_cube");
        reveal_strlit("minecraft:minecart");
        lemma_precedes_at("minecraft:magma_cube"@, "minecraft:minecart"@, 11);
    } else     if i == 59 {
        reveal_strlit("minecraft:minecart");
        reveal_strlit("minecraft:mooshroom");
        lemma_precedes_at("minecraft:minecart"@, "minecraft:mooshroom"@, 11);
    } else     if i == 60 {
        reveal_strlit("minecraft:mooshroom");
        reveal_strlit("minecraft:mule");
        lemma_precedes_at("minecraft:mooshroom"@, "minecraft:mule"@, 11);
    } else     if i == 61 {
        reveal_strlit("minecraft:mule");
        reveal_strlit("minecraft:nautilus");
        lemma_precedes_at("minecraft:mule"@, "minecraft:nautilus"@, 10);
    } else     if i == 62 {
        reveal_strlit("minecraft:nautilus");
        reveal_strlit("minecraft:npc");
        lemma_precedes_at("minecraft:nautilus"@, "minecraft:npc"@, 11);
    } else     if i == 63 {
        reveal_strlit("minecraft:npc");
        reveal_strlit("minecraft:ocelot");
        lemma_precedes_at("minecraft:npc"@, "minecraft:ocelot"@, 10);
    } else     if i == 64 {
        reveal_strlit("minecraft:ocelot");
        reveal_strlit("minecraft:ominous_item_spawner");
        lemma_precedes_at("minecraft:ocelot"@, "minecraft:ominous_item_spawner"@, 11);
    } else     if i == 65 {
        reveal_strlit("minecraft:ominous_item_spawner");
        reveal_strlit("minecraft:panda");
        lemma_precedes_at("minecraft:ominous_item_spawner"@, "minecraft:panda"@, 10);
    } else     if i == 66 {
        reveal_strlit("minecraft:panda");
        reveal_strlit("minecraft:parched");
        lemma_precedes_at("minecraft:panda"@, "minecraft:parched"@, 12);
    } else     if i == 67 {
        reveal_strlit("minecraft:parched");
        reveal_strlit("minecraft:parrot");
        lemma_precedes_at("minecraft:parched"@, "minecraft:parrot"@, 13);
    } else     if i == 68 {
        reveal_strlit("minecraft:parrot");
        reveal_strlit("minecraft:phantom");
        lemma_precedes_at("minecraft:parrot"@, "minecraft:phantom"@, 11);
    } else     if i == 69 {
        reveal_strlit("minecraft:phantom");
        reveal_strlit("minecraft:pig");
        lemma_precedes_at("minecraft:phantom"@, "minecraft:pig"@, 11);
    } else     if i == 70 {
        reveal_strlit("minecraft:pig");
        reveal_strlit("minecraft:piglin");
        lemma_precedes_at("minecraft:pig"@, "minecraft:piglin"@, 13);
    } else     if i == 71 {
        reveal_strlit("minecraft:piglin");
        reveal_strlit("minecraft:piglin_brute");
        lemma_precedes_at("minecraft:piglin"@, "minecraft:piglin_brute"@, 16);
    } else     if i == 72 {
        reveal_strlit("minecraft:piglin_brute");
        reveal_strlit("minecraft:pillager");
        lemma_precedes_at("minecraft:piglin_brute"@, "minecraft:pillager"@, 12);
    } else     if i == 73 {
        reveal_strlit("minecraft:pillager");
        reveal_strlit("minecraft:player");
        lemma_precedes_at("minecraft:pillager"@, "minecraft:player"@, 11);
    } else     if i == 74 {
        reveal_strlit("minecraft:player");
        reveal_strlit("minecraft:polar_bear");
        lemma_precedes_at("minecraft:player"@, "minecraft:polar_bear"@, 11);
    } else     if i == 75 {
        reveal_strlit("minecraft:polar_bear");
        reveal_strlit("minecraft:pufferfish");
        lemma_precedes_at("minecraft:polar_bear"@, "minecraft:pufferfish"@, 11);
    } else     if i == 76 {
        reveal_strlit("minecraft:pufferfish");
        reveal_strlit("minecraft:rabbit");
        lemma_precedes_at("minecraft:pufferfish"@, "minecraft:rabbit"@, 10);
    } else     if i == 77 {
        reveal_strlit("minecraft:rabbit");
        reveal_strlit("minecraft:ravager");
        lemma_precedes_at("minecraft:rabbit"@, "minecraft:ravager"@, 12);
    } else     if i == 78 {
        reveal_strlit("minecraft:ravager");
        reveal_strlit("minecraft:salmon");
        lemma_precedes_at("minecraft:ravager"@, "minecraft:salmon"@, 10);
    } else     if i == 79 {
        reveal_strlit("minecraft:salmon");
        reveal_strlit("minecraft:sheep");
        lemma_precedes_at("minecraft:salmon"@, "minecraft:sheep"@, 11);
    } else     if i == 80 {
        reveal_strlit("minecraft:sheep");
        reveal_strlit("minecraft:shulker");
        lemma_precedes_at("minecraft:sheep"@, "minecraft:shulker"@, 12);
    } else     if i == 81 {
        reveal_strlit("minecraft:shulker");
        reveal_strlit("minecraft:shulker_bullet");
        lemma_precedes_at("minecraft:shulker"@, "minecraft:shulker_bullet"@, 17);
    } else     if i == 82 {
        reveal_strlit("minecraft:shulker_bullet");
        reveal_strlit("minecraft:silverfish");
        lemma_precedes_at("minecraft:shulker_bullet"@, "minecraft:silverfish"@, 11);
    } else     if i == 83 {
        reveal_strlit("minecraft:silverfish");
        reveal_strlit("minecraft:skeleton");
        lemma_precedes_at("minecraft:silverfish"@, "minecraft:skeleton"@, 11);
    } else     if i == 84 {
        reveal_strlit("minecraft:skeleton");
        reveal_strlit("minecraft:skeleton_horse");
        lemma_precedes_at("minecraft:skeleton"@, "minecraft:skeleton_horse"@, 18);
    } else     if i == 85 {
        reveal_strlit("minecraft:skeleton_horse");
        reveal_strlit("minecraft:slime");
        lemma_precedes_at("minecraft:skeleton_horse"@, "minecraft:slime"@, 11);
    } else     if i == 86 {
        reveal_strlit("minecraft:slime");
        reveal_strlit("minecraft:small_fireball");
        lemma_precedes_at("minecraft:slime"@, "minecraft:small_fireball"@, 11);
    } else     if i == 87 {
        reveal_strlit("minecraft:small_fireball");
        reveal_strlit("minecraft:sniffer");
        lemma_precedes_at("minecraft:small_fireball"@, "minecraft:sniffer"@, 11);
    } else     if i == 88 {
        reveal_strlit("minecraft:sniffer");
        reveal_strlit("minecraft:snow_golem");
        lemma_precedes_at("minecraft:sniffer"@, "minecraft:snow_golem"@, 12);
    } else     if i == 89 {
        reveal_strlit("minecraft:snow_golem");
        reveal_strlit("minecraft:snowball");
        lemma_precedes_at("minecraft:snow_golem"@, "minecraft:snowball"@, 14);
    } else     if i == 90 {
        reveal_strlit("minecraft:snowball");
        reveal_strlit("minecraft:spider");
        lemma_precedes_at("minecraft:snowball"@, "minecraft:spider"@, 11);
    } else     if i == 91 {
        reveal_strlit("minecraft:spider");
        reveal_strlit("minecraft:splash_potion");
        lemma_precedes_at("minecraft:spider"@, "minecraft:splash_potion"@, 12);
    } else     if i == 92 {
        reveal_strlit("minecraft:splash_potion");
        reveal_strlit("minecraft:squid");
        lemma_precedes_at("minecraft:splash_potion"@, "minecraft:squid"@, 11);
    } else     if i == 93 {
        reveal_strlit("minecraft:squid");
        reveal_strlit("minecraft:stray");
        lemma_precedes_at("minecraft:squid"@, "minecraft:stray"@, 11);
    } else     if i == 94 {
        reveal_strlit("minecraft:stray");
        reveal_strlit("minecraft:strider");
        lemma_precedes_at("minecraft:stray"@, "minecraft:strider"@, 13);
    } else     if i == 95 {
        reveal_strlit("minecraft:strider");
        reveal_strlit("minecraft:tadpole");
        lemma_precedes_at("minecraft:strider"@, "minecraft:tadpole"@, 10);
    } else     if i == 96 {
        reveal_strlit("minecraft:tadpole");
        reveal_strlit("minecraft:thrown_trident");
        lemma_precedes_at("minecraft:tadpole"@, "minecraft:thrown_trident"@, 11);
    } else     if i == 97 {
        reveal_strlit("minecraft:thrown_trident");
        reveal_strlit("minecraft:tnt");
        lemma_precedes_at("minecraft:thrown_trident"@, "minecraft:tnt"@, 11);
    } else     if i == 98 {
        reveal_strlit("minecraft:tnt");
        reveal_strlit("minecraft:tnt_minecart");
        lemma_precedes_at("minecraft:tnt"@, "minecraft:tnt_minecart"@, 13);
    } else     if i == 99 {
        reveal_strlit("minecraft:tnt_minecart");
        reveal_strlit("minecraft:trader_llama");
        lemma_precedes_at("minecraft:tnt_minecart"@, "minecraft:trader_llama"@, 11);
    } else     if i == 100 {
        reveal_strlit("minecraft:trader_llama");
        reveal_strlit("minecraft:tripod_camera");
        lemma_precedes_at("minecraft:trader_llama"@, "minecraft:tripod_camera"@, 12);
    } else     if i == 101 {
        reveal_strlit("minecraft:tripod_camera");
        reveal_strlit("minecraft:tropicalfish");
        lemma_precedes_at("minecraft:tripod_camera"@, "minecraft:tropicalfish"@, 12);
    } else     if i == 102 {
        reveal_strlit("minecraft:tropicalfish");
        reveal_strlit("minecraft:turtle");
        lemma_precedes_at("minecraft:tropicalfish"@, "minecraft:turtle"@, 11);
    } else     if i == 103 {
        reveal_strlit("minecraft:turtle");
        reveal_strlit("minecraft:vex");
        lemma_precedes_at("minecraft:turtle"@, "minecraft:vex"@, 10);
    } else     if i == 104 {
        reveal_strlit("minecraft:vex");
        reveal_strlit("minecraft:villager");
        lemma_precedes_at("minecraft:vex"@, "minecraft:villager"@, 11);
    } else     if i == 105 {
        reveal_strlit("minecraft:villager");
        reveal_strlit("minecraft:villager_v2");
        lemma_precedes_at("minecraft:villager"@, "minecraft:villager_v2"@, 18);
    } else     if i == 106 {
        reveal_strlit("minecraft:villager_v2");
        reveal_strlit("minecraft:vindicator");
        lemma_precedes_at("minecraft:villager_v2"@, "minecraft:vindicator"@, 12);
    } else     if i == 107 {
        reveal_strlit("minecraft:vindicator");
        reveal_strlit("minecraft:wandering_trader");
        lemma_precedes_at("minecraft:vindicator"@, "minecraft:wandering_trader"@, 10);
    } else     if i == 108 {
        reveal_strlit("minecraft:wandering_trader");
        reveal_strlit("minecraft:warden");
        lemma_precedes_at("minecraft:wandering_trader"@, "minecraft:warden"@, 12);
    } else     if i == 109 {
        reveal_strlit("minecraft:warden");
        reveal_strlit("minecraft:wind_charge_projectile");
        lemma_precedes_at("minecraft:warden"@, "minecraft:wind_charge_projectile"@, 11);
    } else     if i == 110 {
        reveal_strlit("minecraft:wind_charge_projectile");
        reveal_strlit("minecraft:witch");
        lemma_precedes_at("minecraft:wind_charge_projectile"@, "minecraft:witch"@, 12);
    } else     if i == 111 {
        reveal_strlit("minecraft:witch");
        reveal_strlit("minecraft:wither");
        lemma_precedes_at("minecraft:witch"@, "minecraft:wither"@, 13);
    } else     if i == 112 {
        reveal_strlit("minecraft:wither");
        reveal_strlit("minecraft:wither_skeleton");
        lemma_precedes_at("minecraft:wither"@, "minecraft:wither_skeleton"@, 16);
    } else     if i == 113 {
        reveal_strlit("minecraft:wither_skeleton");
        reveal_strlit("minecraft:wither_skull");
        lemma_precedes_at("minecraft:wither_skeleton"@, "minecraft:wither_skull"@, 19);
    } else     if i == 114 {
        reveal_strlit("minecraft:wither_skull");
        reveal_strlit("minecraft:wither_skull_dangerous");
        lemma_precedes_at("minecraft:wither_skull"@, "minecraft:wither_skull_dangerous"@, 22);
    } else     if i == 115 {
        reveal_strlit("minecraft:wither_skull_dangerous");
        reveal_strlit("minecraft:wolf");
        lemma_precedes_at("minecraft:wither_skull_dangerous"@, "minecraft:wolf"@, 11);
    } else     if i == 116 {
        reveal_strlit("minecraft:wolf");
        reveal_strlit("minecraft:xp_bottle");
        lemma_precedes_at("minecraft:wolf"@, "minecraft:xp_bottle"@, 10);
    } else     if i == 117 {
        reveal_strlit("minecraft:xp_bottle");
        reveal_strlit("minecraft:xp_orb");
        lemma_precedes_at("minecraft:xp_bottle"@, "minecraft:xp_orb"@, 13);
    } else     if i == 118 {
        reveal_strlit("minecraft:xp_orb");
        reveal_strlit("minecraft:zoglin");
        lemma_precedes_at("minecraft:xp_orb"@, "minecraft:zoglin"@, 10);
    } else     if i == 119 {
        reveal_strlit("minecraft:zoglin");
        reveal_strlit("minecraft:zombie");
        lemma_precedes_at("minecraft:zoglin"@, "minecraft:zombie"@, 12);
    } else     if i == 120 {
        reveal_strlit("minecraft:zombie");
        reveal_strlit("minecraft:zombie_horse");
        lemma_precedes_at("minecraft:zombie"@, "minecraft:zombie_horse"@, 16);
    } else     if i == 121 {
        reveal_strlit("minecraft:zombie_horse");
        reveal_strlit("minecraft:zombie_nautilus");
        lemma_precedes_at("minecraft:zombie_horse"@, "minecraft:zombie_nautilus"@, 17);
    } else     if i == 122 {
        reveal_strlit("minecraft:zombie_nautilus");
        reveal_strlit("minecraft:zombie_pigman");
        lemma_precedes_at("minecraft:zombie_nautilus"@, "minecraft:zombie_pigman"@, 17);
    } else     if i == 123 {
        reveal_strlit("minecraft:zombie_pigman");
        reveal_strlit("minecraft:zombie_villager");
        lemma_precedes_at("minecraft:zombie_pigman"@, "minecraft:zombie_villager"@, 17);
    } else     if i == 124 {
        reveal_strlit("minecraft:zombie_villager");
        reveal_strlit("minecraft:zombie_villager_v2");
        lemma_precedes_at("minecraft:zombie_villager"@, "minecraft:zombie_villager_v2"@, 25);
    }
}

/// The registry is sorted strictly by identifier.
pub proof fn lemma_registry_sorted(i: int, j: int)
    requires
        0 <= i < j < ENTITY_COUNT,
    ensures
        char_seq_lt(registry_identifier(i), registry_identifier(j)),
    decreases j - i,
{
    lemma_adjacent_sorted(j - 1);
    if i < j - 1 {
        lemma_registry_sorted(i, j - 1);
        lemma_lt_transitive(registry_identifier(i), registry_identifier(j - 1), registry_identifier(j));
    }
}

/// The registry is sorted strictly by module name: the identifier with its
/// `minecraft:` namespace dropped.
pub proof fn lemma_registry_sorted_by_module_name(i: int, j: int)
    requires
        0 <= i < j < ENTITY_COUNT,
    ensures
        char_seq_lt(registry_identifier(i).skip(10), registry_identifier(j).skip(10)),
{
    lemma_registry_sorted(i, j);
    lemma_identifiers_namespaced(i);
    lemma_identifiers_namespaced(j);
    lemma_lt_drop_common_prefix(registry_identifier(i), registry_identifier(j), 10);
}

/// No two records share an identifier.
pub proof fn lemma_identifiers_distinct(i: int, j: int)
    requires
        0 <= i < ENTITY_COUNT,
        0 <= j < ENTITY_COUNT,
        i != j,
    ensures
        registry_identifier(i) != registry_identifier(j),
{
    if i < j {
        lemma_registry_sorted(i, j);
        lemma_lt_distinct(registry_identifier(i), registry_identifier(j));
    } else {
        lemma_registry_sorted(j, i);
        lemma_lt_distinct(registry_identifier(j), registry_identifier(i));
    }
}

proof fn lemma_lookup_from_reaches(identifier: Seq<char>, start: int, k: int)
    requires
        0 <= start <= k < ENTITY_COUNT,
        registry_identifier(k) == identifier,
        forall|j: int| start <= j < k ==> registry_identifier(j) != identifier,
    ensures
        lookup_from(identifier, start) == Some(registry_record(k)),
    decreases k - start,
{
    if start < k {
        lemma_lookup_from_reaches(identifier, start + 1, k);
    }
}

proof fn lemma_lookup_from_result(identifier: Seq<char>, start: int)
    requires
        0 <= start,
    ensures
        lookup_from(identifier, start) is None <==> forall|j: int|
            start <= j < ENTITY_COUNT ==> registry_identifier(j) != identifier,
        lookup_from(identifier, start) matches Some(record) ==> record.identifier@ == identifier,
    decreases ENTITY_COUNT - start,
{
    if start < ENTITY_COUNT {
        lemma_lookup_from_result(identifier, start + 1);
    }
}

/// Looking up a record's own identifier gives back that record.
pub proof fn lemma_lookup_finds_record(i: int)
    requires
        0 <= i < ENTITY_COUNT,
    ensures
        lookup(registry_identifier(i)) == Some(registry_record(i)),
{
    assert forall|j: int| 0 <= j < i implies registry_identifier(j) != registry_identifier(i) by {
        lemma_identifiers_distinct(j, i);
    }
    lemma_lookup_from_reaches(registry_identifier(i), 0, i);
}

/// A lookup succeeds exactly when some record has the identifier, and what
/// it returns carries that identifier.
pub proof fn lemma_lookup_characterized(identifier: Seq<char>)
    ensures
        lookup(identifier) is Some <==> exists|i: int|
            0 <= i < ENTITY_COUNT && #[trigger] registry_identifier(i) == identifier,
        lookup(identifier) matches Some(record) ==> record.identifier@ == identifier,
{
    lemma_lookup_from_result(identifier, 0);
}

} // verus!
