//! The behavior-pack data of every registered entity, stated entity by
//! entity through lookup by identifier, grouped by value.
use vstd::prelude::*;

use super::registry::{lemma_lookup_finds_record, lookup, registry_record, ENTITY_COUNT};

verus! {

/// The entity registered under `identifier` has a collision box `height`
/// tall and `width` wide, in ten-thousandths of a block.
pub open spec fn collision_box_is(identifier: Seq<char>, height: u32, width: u32) -> bool {
    match lookup(identifier) {
        Some(record) => record.height == Some(height) && record.width == Some(width),
        None => false,
    }
}

/// The entity registered under `identifier` has vanilla spawn category `category`.
pub open spec fn spawn_category_is(identifier: Seq<char>, category: &'static str) -> bool {
    match lookup(identifier) {
        Some(record) => record.spawn_category == Some(category),
        None => false,
    }
}

/// The entity registered under `identifier` has no vanilla spawn category.
pub open spec fn has_no_spawn_category(identifier: Seq<char>) -> bool {
    match lookup(identifier) {
        Some(record) => record.spawn_category is None,
        None => false,
    }
}

/// The entity registered under `identifier` spawns naturally exactly when
/// `spawnable`, and can be summoned by commands exactly when `summonable`.
pub open spec fn spawn_flags_are(identifier: Seq<char>, spawnable: bool, summonable: bool) -> bool {
    match lookup(identifier) {
        Some(record) => record.is_spawnable == spawnable && record.is_summonable == summonable,
        None => false,
    }
}

proof fn lemma_collision_boxes_part_0()
    ensures
        collision_box_is("minecraft:fishing_hook"@, 1500, 1500),
        collision_box_is("minecraft:wither_skull"@, 1500, 1500),
        collision_box_is("minecraft:wither_skull_dangerous"@, 1500, 1500),
        collision_box_is("minecraft:arrow"@, 2500, 2500),
        collision_box_is("minecraft:egg"@, 2500, 2500),
        collision_box_is("minecraft:ender_pearl"@, 2500, 2500),
        collision_box_is("minecraft:eye_of_ender_signal"@, 2500, 2500),
        collision_box_is("minecraft:fireworks_rocket"@, 2500, 2500),
{
    lemma_lookup_finds_record(41);
    lemma_lookup_finds_record(114);
    lemma_lookup_finds_record(115);
    lemma_lookup_finds_record(4);
    lemma_lookup_finds_record(30);
    lemma_lookup_finds_record(34);
    lemma_lookup_finds_record(38);
    lemma_lookup_finds_record(40);
}

proof fn lemma_collision_boxes_part_1()
    ensures
        collision_box_is("minecraft:lingering_potion"@, 2500, 2500),
        collision_box_is("minecraft:snowball"@, 2500, 2500),
        collision_box_is("minecraft:splash_potion"@, 2500, 2500),
        collision_box_is("minecraft:xp_bottle"@, 2500, 2500),
        collision_box_is("minecraft:xp_orb"@, 2500, 2500),
        collision_box_is("minecraft:endermite"@, 3000, 4000),
        collision_box_is("minecraft:silverfish"@, 3000, 4000),
        collision_box_is("minecraft:cod"@, 3000, 6000),
{
    lemma_lookup_finds_record(55);
    lemma_lookup_finds_record(90);
    lemma_lookup_finds_record(92);
    lemma_lookup_finds_record(117);
    lemma_lookup_finds_record(118);
    lemma_lookup_finds_record(36);
    lemma_lookup_finds_record(83);
    lemma_lookup_finds_record(20);
}

proof fn lemma_collision_boxes_part_2()
    ensures
        collision_box_is("minecraft:dragon_fireball"@, 3100, 3100),
        collision_box_is("minecraft:llama_spit"@, 3100, 3100),
        collision_box_is("minecraft:small_fireball"@, 3100, 3100),
        collision_box_is("minecraft:breeze_wind_charge_projectile"@, 3125, 3125),
        collision_box_is("minecraft:wind_charge_projectile"@, 3125, 3125),
        collision_box_is("minecraft:thrown_trident"@, 3500, 2500),
        collision_box_is("minecraft:tropicalfish"@, 4000, 4000),
        collision_box_is("minecraft:axolotl"@, 4200, 7500),
{
    lemma_lookup_finds_record(28);
    lemma_lookup_finds_record(57);
    lemma_lookup_finds_record(87);
    lemma_lookup_finds_record(12);
    lemma_lookup_finds_record(110);
    lemma_lookup_finds_record(97);
    lemma_lookup_finds_record(102);
    lemma_lookup_finds_record(5);
}

proof fn lemma_collision_boxes_part_3()
    ensures
        collision_box_is("minecraft:boat"@, 4550, 14000),
        collision_box_is("minecraft:chest_boat"@, 4550, 14000),
        collision_box_is("minecraft:salmon"@, 5000, 5000),
        collision_box_is("minecraft:bee"@, 5000, 5500),
        collision_box_is("minecraft:cave_spider"@, 5000, 7000),
        collision_box_is("minecraft:phantom"@, 5000, 9000),
        collision_box_is("minecraft:frog"@, 5500, 5000),
        collision_box_is("minecraft:allay"@, 6000, 3500),
{
    lemma_lookup_finds_record(9);
    lemma_lookup_finds_record(17);
    lemma_lookup_finds_record(79);
    lemma_lookup_finds_record(7);
    lemma_lookup_finds_record(16);
    lemma_lookup_finds_record(69);
    lemma_lookup_finds_record(43);
    lemma_lookup_finds_record(0);
}

proof fn lemma_collision_boxes_part_4()
    ensures
        collision_box_is("minecraft:tadpole"@, 6000, 8000),
        collision_box_is("minecraft:dolphin"@, 6000, 9000),
        collision_box_is("minecraft:shulker_bullet"@, 6250, 6250),
        collision_box_is("minecraft:armadillo"@, 6500, 7000),
        collision_box_is("minecraft:rabbit"@, 6700, 6700),
        collision_box_is("minecraft:cat"@, 7000, 6000),
        collision_box_is("minecraft:fox"@, 7000, 6000),
        collision_box_is("minecraft:ocelot"@, 7000, 6000),
{
    lemma_lookup_finds_record(96);
    lemma_lookup_finds_record(26);
    lemma_lookup_finds_record(82);
    lemma_lookup_finds_record(2);
    lemma_lookup_finds_record(77);
    lemma_lookup_finds_record(15);
    lemma_lookup_finds_record(42);
    lemma_lookup_finds_record(64);
}

proof fn lemma_collision_boxes_part_5()
    ensures
        collision_box_is("minecraft:chest_minecart"@, 7000, 9800),
        collision_box_is("minecraft:command_block_minecart"@, 7000, 9800),
        collision_box_is("minecraft:hopper_minecart"@, 7000, 9800),
        collision_box_is("minecraft:minecart"@, 7000, 9800),
        collision_box_is("minecraft:tnt_minecart"@, 7000, 9800),
        collision_box_is("minecraft:vex"@, 8000, 4000),
        collision_box_is("minecraft:chicken"@, 8000, 6000),
        collision_box_is("minecraft:wolf"@, 8000, 6000),
{
    lemma_lookup_finds_record(18);
    lemma_lookup_finds_record(21);
    lemma_lookup_finds_record(50);
    lemma_lookup_finds_record(59);
    lemma_lookup_finds_record(99);
    lemma_lookup_finds_record(104);
    lemma_lookup_finds_record(19);
    lemma_lookup_finds_record(116);
}

proof fn lemma_collision_boxes_part_6()
    ensures
        collision_box_is("minecraft:glow_squid"@, 8000, 8000),
        collision_box_is("minecraft:pufferfish"@, 8000, 8000),
        collision_box_is("minecraft:squid"@, 8000, 8000),
        collision_box_is("minecraft:guardian"@, 8500, 8500),
        collision_box_is("minecraft:bat"@, 9000, 5000),
        collision_box_is("minecraft:pig"@, 9000, 9000),
        collision_box_is("minecraft:spider"@, 9000, 14000),
        collision_box_is("minecraft:zombie_nautilus"@, 9500, 8750),
{
    lemma_lookup_finds_record(45);
    lemma_lookup_finds_record(76);
    lemma_lookup_finds_record(93);
    lemma_lookup_finds_record(47);
    lemma_lookup_finds_record(6);
    lemma_lookup_finds_record(70);
    lemma_lookup_finds_record(91);
    lemma_lookup_finds_record(122);
}

proof fn lemma_collision_boxes_part_7()
    ensures
        collision_box_is("minecraft:copper_golem"@, 9800, 6000),
        collision_box_is("minecraft:tnt"@, 9800, 9800),
        collision_box_is("minecraft:parrot"@, 10000, 5000),
        collision_box_is("minecraft:fireball"@, 10000, 10000),
        collision_box_is("minecraft:panda"@, 12500, 13000),
        collision_box_is("minecraft:cow"@, 13000, 9000),
        collision_box_is("minecraft:goat"@, 13000, 9000),
        collision_box_is("minecraft:mooshroom"@, 13000, 9000),
{
    lemma_lookup_finds_record(22);
    lemma_lookup_finds_record(98);
    lemma_lookup_finds_record(68);
    lemma_lookup_finds_record(39);
    lemma_lookup_finds_record(66);
    lemma_lookup_finds_record(23);
    lemma_lookup_finds_record(46);
    lemma_lookup_finds_record(60);
}

proof fn lemma_collision_boxes_part_8()
    ensures
        collision_box_is("minecraft:sheep"@, 13000, 9000),
        collision_box_is("minecraft:polar_bear"@, 14000, 14000),
        collision_box_is("minecraft:donkey"@, 16000, 14000),
        collision_box_is("minecraft:horse"@, 16000, 14000),
        collision_box_is("minecraft:mule"@, 16000, 14000),
        collision_box_is("minecraft:zombie_horse"@, 16000, 14000),
        collision_box_is("minecraft:strider"@, 17000, 9000),
        collision_box_is("minecraft:sniffer"@, 17500, 19000),
{
    lemma_lookup_finds_record(80);
    lemma_lookup_finds_record(75);
    lemma_lookup_finds_record(27);
    lemma_lookup_finds_record(51);
    lemma_lookup_finds_record(61);
    lemma_lookup_finds_record(121);
    lemma_lookup_finds_record(95);
    lemma_lookup_finds_record(88);
}

proof fn lemma_collision_boxes_part_9()
    ensures
        collision_box_is("minecraft:breeze"@, 17700, 6000),
        collision_box_is("minecraft:snow_golem"@, 18000, 4000),
        collision_box_is("minecraft:blaze"@, 18000, 5000),
        collision_box_is("minecraft:area_effect_cloud"@, 18000, 6000),
        collision_box_is("minecraft:creeper"@, 18000, 6000),
        collision_box_is("minecraft:hoglin"@, 18000, 6000),
        collision_box_is("minecraft:lightning_bolt"@, 18000, 6000),
        collision_box_is("minecraft:nautilus"@, 18000, 6000),
{
    lemma_lookup_finds_record(11);
    lemma_lookup_finds_record(89);
    lemma_lookup_finds_record(8);
    lemma_lookup_finds_record(1);
    lemma_lookup_finds_record(25);
    lemma_lookup_finds_record(49);
    lemma_lookup_finds_record(54);
    lemma_lookup_finds_record(62);
}

proof fn lemma_collision_boxes_part_10()
    ensures
        collision_box_is("minecraft:ominous_item_spawner"@, 18000, 6000),
        collision_box_is("minecraft:player"@, 18000, 6000),
        collision_box_is("minecraft:shulker"@, 18000, 6000),
        collision_box_is("minecraft:skeleton_horse"@, 18000, 6000),
        collision_box_is("minecraft:turtle"@, 18000, 6000),
        collision_box_is("minecraft:zoglin"@, 18000, 6000),
        collision_box_is("minecraft:tripod_camera"@, 18000, 7500),
        collision_box_is("minecraft:llama"@, 18700, 9000),
{
    lemma_lookup_finds_record(65);
    lemma_lookup_finds_record(74);
    lemma_lookup_finds_record(81);
    lemma_lookup_finds_record(85);
    lemma_lookup_finds_record(103);
    lemma_lookup_finds_record(119);
    lemma_lookup_finds_record(101);
    lemma_lookup_finds_record(56);
}

proof fn lemma_collision_boxes_part_11()
    ensures
        collision_box_is("minecraft:trader_llama"@, 18700, 9000),
        collision_box_is("minecraft:bogged"@, 19000, 6000),
        collision_box_is("minecraft:drowned"@, 19000, 6000),
        collision_box_is("minecraft:evocation_illager"@, 19000, 6000),
        collision_box_is("minecraft:husk"@, 19000, 6000),
        collision_box_is("minecraft:parched"@, 19000, 6000),
        collision_box_is("minecraft:piglin"@, 19000, 6000),
        collision_box_is("minecraft:piglin_brute"@, 19000, 6000),
{
    lemma_lookup_finds_record(100);
    lemma_lookup_finds_record(10);
    lemma_lookup_finds_record(29);
    lemma_lookup_finds_record(37);
    lemma_lookup_finds_record(52);
    lemma_lookup_finds_record(67);
    lemma_lookup_finds_record(71);
    lemma_lookup_finds_record(72);
}

proof fn lemma_collision_boxes_part_12()
    ensures
        collision_box_is("minecraft:pillager"@, 19000, 6000),
        collision_box_is("minecraft:skeleton"@, 19000, 6000),
        collision_box_is("minecraft:stray"@, 19000, 6000),
        collision_box_is("minecraft:villager"@, 19000, 6000),
        collision_box_is("minecraft:villager_v2"@, 19000, 6000),
        collision_box_is("minecraft:vindicator"@, 19000, 6000),
        collision_box_is("minecraft:wandering_trader"@, 19000, 6000),
        collision_box_is("minecraft:witch"@, 19000, 6000),
{
    lemma_lookup_finds_record(73);
    lemma_lookup_finds_record(84);
    lemma_lookup_finds_record(94);
    lemma_lookup_finds_record(105);
    lemma_lookup_finds_record(106);
    lemma_lookup_finds_record(107);
    lemma_lookup_finds_record(108);
    lemma_lookup_finds_record(111);
}

proof fn lemma_collision_boxes_part_13()
    ensures
        collision_box_is("minecraft:zombie"@, 19000, 6000),
        collision_box_is("minecraft:zombie_pigman"@, 19000, 6000),
        collision_box_is("minecraft:zombie_villager"@, 19000, 6000),
        collision_box_is("minecraft:zombie_villager_v2"@, 19000, 6000),
        collision_box_is("minecraft:armor_stand"@, 19750, 5000),
        collision_box_is("minecraft:elder_guardian"@, 19900, 19900),
        collision_box_is("minecraft:ender_crystal"@, 20000, 20000),
        collision_box_is("minecraft:wither_skeleton"@, 20100, 7200),
{
    lemma_lookup_finds_record(120);
    lemma_lookup_finds_record(123);
    lemma_lookup_finds_record(124);
    lemma_lookup_finds_record(125);
    lemma_lookup_finds_record(3);
    lemma_lookup_finds_record(31);
    lemma_lookup_finds_record(32);
    lemma_lookup_finds_record(113);
}

proof fn lemma_collision_boxes_part_14()
    ensures
        collision_box_is("minecraft:magma_cube"@, 20800, 20800),
        collision_box_is("minecraft:slime"@, 20800, 20800),
        collision_box_is("minecraft:npc"@, 21000, 6000),
        collision_box_is("minecraft:ravager"@, 22000, 19500),
        collision_box_is("minecraft:camel"@, 23750, 17000),
        collision_box_is("minecraft:camel_husk"@, 23750, 17000),
        collision_box_is("minecraft:creaking"@, 27000, 9000),
        collision_box_is("minecraft:enderman"@, 29000, 6000),
{
    lemma_lookup_finds_record(58);
    lemma_lookup_finds_record(86);
    lemma_lookup_finds_record(63);
    lemma_lookup_finds_record(78);
    lemma_lookup_finds_record(13);
    lemma_lookup_finds_record(14);
    lemma_lookup_finds_record(24);
    lemma_lookup_finds_record(35);
}

proof fn lemma_collision_boxes_part_15()
    ensures
        collision_box_is("minecraft:warden"@, 29000, 9000),
        collision_box_is("minecraft:iron_golem"@, 29000, 14000),
        collision_box_is("minecraft:wither"@, 30000, 10000),
        collision_box_is("minecraft:happy_ghast"@, 40000, 40000),
        collision_box_is("minecraft:ghast"@, 40000, 40200),
        collision_box_is("minecraft:ender_dragon"@, 40000, 130000),
{
    lemma_lookup_finds_record(109);
    lemma_lookup_finds_record(53);
    lemma_lookup_finds_record(112);
    lemma_lookup_finds_record(48);
    lemma_lookup_finds_record(44);
    lemma_lookup_finds_record(33);
}

/// The collision box of every registered entity, as `minecraft:collision_box`
/// gives it.
pub proof fn lemma_collision_boxes()
    ensures
        // 0.15 blocks tall, 0.15 blocks wide
        collision_box_is("minecraft:fishing_hook"@, 1500, 1500),
        collision_box_is("minecraft:wither_skull"@, 1500, 1500),
        collision_box_is("minecraft:wither_skull_dangerous"@, 1500, 1500),
        // 0.25 blocks tall, 0.25 blocks wide
        collision_box_is("minecraft:arrow"@, 2500, 2500),
        collision_box_is("minecraft:egg"@, 2500, 2500),
        collision_box_is("minecraft:ender_pearl"@, 2500, 2500),
        collision_box_is("minecraft:eye_of_ender_signal"@, 2500, 2500),
        collision_box_is("minecraft:fireworks_rocket"@, 2500, 2500),
        collision_box_is("minecraft:lingering_potion"@, 2500, 2500),
        collision_box_is("minecraft:snowball"@, 2500, 2500),
        collision_box_is("minecraft:splash_potion"@, 2500, 2500),
        collision_box_is("minecraft:xp_bottle"@, 2500, 2500),
        collision_box_is("minecraft:xp_orb"@, 2500, 2500),
        // 0.3 blocks tall, 0.4 blocks wide
        collision_box_is("minecraft:endermite"@, 3000, 4000),
        collision_box_is("minecraft:silverfish"@, 3000, 4000),
        // 0.3 blocks tall, 0.6 blocks wide
        collision_box_is("minecraft:cod"@, 3000, 6000),
        // 0.31 blocks tall, 0.31 blocks wide
        collision_box_is("minecraft:dragon_fireball"@, 3100, 3100),
        collision_box_is("minecraft:llama_spit"@, 3100, 3100),
        collision_box_is("minecraft:small_fireball"@, 3100, 3100),
        // 0.3125 blocks tall, 0.3125 blocks wide
        collision_box_is("minecraft:breeze_wind_charge_projectile"@, 3125, 3125),
        collision_box_is("minecraft:wind_charge_projectile"@, 3125, 3125),
        // 0.35 blocks tall, 0.25 blocks wide
        collision_box_is("minecraft:thrown_trident"@, 3500, 2500),
        // 0.4 blocks tall, 0.4 blocks wide
        collision_box_is("minecraft:tropicalfish"@, 4000, 4000),
        // 0.42 blocks tall, 0.75 blocks wide
        collision_box_is("minecraft:axolotl"@, 4200, 7500),
        // 0.455 blocks tall, 1.4 blocks wide
        collision_box_is("minecraft:boat"@, 4550, 14000),
        collision_box_is("minecraft:chest_boat"@, 4550, 14000),
        // 0.5 blocks tall, 0.5 blocks wide
        collision_box_is("minecraft:salmon"@, 5000, 5000),
        // 0.5 blocks tall, 0.55 blocks wide
        collision_box_is("minecraft:bee"@, 5000, 5500),
        // 0.5 blocks tall, 0.7 blocks wide
        collision_box_is("minecraft:cave_spider"@, 5000, 7000),
        // 0.5 blocks tall, 0.9 blocks wide
        collision_box_is("minecraft:phantom"@, 5000, 9000),
        // 0.55 blocks tall, 0.5 blocks wide
        collision_box_is("minecraft:frog"@, 5500, 5000),
        // 0.6 blocks tall, 0.35 blocks wide
        collision_box_is("minecraft:allay"@, 6000, 3500),
        // 0.6 blocks tall, 0.8 blocks wide
        collision_box_is("minecraft:tadpole"@, 6000, 8000),
        // 0.6 blocks tall, 0.9 blocks wide
        collision_box_is("minecraft:dolphin"@, 6000, 9000),
        // 0.625 blocks tall, 0.625 blocks wide
        collision_box_is("minecraft:shulker_bullet"@, 6250, 6250),
        // 0.65 blocks tall, 0.7 blocks wide
        collision_box_is("minecraft:armadillo"@, 6500, 7000),
        // 0.67 blocks tall, 0.67 blocks wide
        collision_box_is("minecraft:rabbit"@, 6700, 6700),
        // 0.7 blocks tall, 0.6 blocks wide
        collision_box_is("minecraft:cat"@, 7000, 6000),
        collision_box_is("minecraft:fox"@, 7000, 6000),
        collision_box_is("minecraft:ocelot"@, 7000, 6000),
        // 0.7 blocks tall, 0.98 blocks wide
        collision_box_is("minecraft:chest_minecart"@, 7000, 9800),
        collision_box_is("minecraft:command_block_minecart"@, 7000, 9800),
        collision_box_is("minecraft:hopper_minecart"@, 7000, 9800),
        collision_box_is("minecraft:minecart"@, 7000, 9800),
        collision_box_is("minecraft:tnt_minecart"@, 7000, 9800),
        // 0.8 blocks tall, 0.4 blocks wide
        collision_box_is("minecraft:vex"@, 8000, 4000),
        // 0.8 blocks tall, 0.6 blocks wide
        collision_box_is("minecraft:chicken"@, 8000, 6000),
        collision_box_is("minecraft:wolf"@, 8000, 6000),
        // 0.8 blocks tall, 0.8 blocks wide
        collision_box_is("minecraft:glow_squid"@, 8000, 8000),
        collision_box_is("minecraft:pufferfish"@, 8000, 8000),
        collision_box_is("minecraft:squid"@, 8000, 8000),
        // 0.85 blocks tall, 0.85 blocks wide
        collision_box_is("minecraft:guardian"@, 8500, 8500),
        // 0.9 blocks tall, 0.5 blocks wide
        collision_box_is("minecraft:bat"@, 9000, 5000),
        // 0.9 blocks tall, 0.9 blocks wide
        collision_box_is("minecraft:pig"@, 9000, 9000),
        // 0.9 blocks tall, 1.4 blocks wide
        collision_box_is("minecraft:spider"@, 9000, 14000),
        // 0.95 blocks tall, 0.875 blocks wide
        collision_box_is("minecraft:zombie_nautilus"@, 9500, 8750),
        // 0.98 blocks tall, 0.6 blocks wide
        collision_box_is("minecraft:copper_golem"@, 9800, 6000),
        // 0.98 blocks tall, 0.98 blocks wide
        collision_box_is("minecraft:tnt"@, 9800, 9800),
        // 1 blocks tall, 0.5 blocks wide
        collision_box_is("minecraft:parrot"@, 10000, 5000),
        // 1 blocks tall, 1 blocks wide
        collision_box_is("minecraft:fireball"@, 10000, 10000),
        // 1.25 blocks tall, 1.3 blocks wide
        collision_box_is("minecraft:panda"@, 12500, 13000),
        // 1.3 blocks tall, 0.9 blocks wide
        collision_box_is("minecraft:cow"@, 13000, 9000),
        collision_box_is("minecraft:goat"@, 13000, 9000),
        collision_box_is("minecraft:mooshroom"@, 13000, 9000),
        collision_box_is("minecraft:sheep"@, 13000, 9000),
        // 1.4 blocks tall, 1.4 blocks wide
        collision_box_is("minecraft:polar_bear"@, 14000, 14000),
        // 1.6 blocks tall, 1.4 blocks wide
        collision_box_is("minecraft:donkey"@, 16000, 14000),
        collision_box_is("minecraft:horse"@, 16000, 14000),
        collision_box_is("minecraft:mule"@, 16000, 14000),
        collision_box_is("minecraft:zombie_horse"@, 16000, 14000),
        // 1.7 blocks tall, 0.9 blocks wide
        collision_box_is("minecraft:strider"@, 17000, 9000),
        // 1.75 blocks tall, 1.9 blocks wide
        collision_box_is("minecraft:sniffer"@, 17500, 19000),
        // 1.77 blocks tall, 0.6 blocks wide
        collision_box_is("minecraft:breeze"@, 17700, 6000),
        // 1.8 blocks tall, 0.4 blocks wide
        collision_box_is("minecraft:snow_golem"@, 18000, 4000),
        // 1.8 blocks tall, 0.5 blocks wide
        collision_box_is("minecraft:blaze"@, 18000, 5000),
        // 1.8 blocks tall, 0.6 blocks wide
        collision_box_is("minecraft:area_effect_cloud"@, 18000, 6000),
        collision_box_is("minecraft:creeper"@, 18000, 6000),
        collision_box_is("minecraft:hoglin"@, 18000, 6000),
        collision_box_is("minecraft:lightning_bolt"@, 18000, 6000),
        collision_box_is("minecraft:nautilus"@, 18000, 6000),
        collision_box_is("minecraft:ominous_item_spawner"@, 18000, 6000),
        collision_box_is("minecraft:player"@, 18000, 6000),
        collision_box_is("minecraft:shulker"@, 18000, 6000),
        collision_box_is("minecraft:skeleton_horse"@, 18000, 6000),
        collision_box_is("minecraft:turtle"@, 18000, 6000),
        collision_box_is("minecraft:zoglin"@, 18000, 6000),
        // 1.8 blocks tall, 0.75 blocks wide
        collision_box_is("minecraft:tripod_camera"@, 18000, 7500),
        // 1.87 blocks tall, 0.9 blocks wide
        collision_box_is("minecraft:llama"@, 18700, 9000),
        collision_box_is("minecraft:trader_llama"@, 18700, 9000),
        // 1.9 blocks tall, 0.6 blocks wide
        collision_box_is("minecraft:bogged"@, 19000, 6000),
        collision_box_is("minecraft:drowned"@, 19000, 6000),
        collision_box_is("minecraft:evocation_illager"@, 19000, 6000),
        collision_box_is("minecraft:husk"@, 19000, 6000),
        collision_box_is("minecraft:parched"@, 19000, 6000),
        collision_box_is("minecraft:piglin"@, 19000, 6000),
        collision_box_is("minecraft:piglin_brute"@, 19000, 6000),
        collision_box_is("minecraft:pillager"@, 19000, 6000),
        collision_box_is("minecraft:skeleton"@, 19000, 6000),
        collision_box_is("minecraft:stray"@, 19000, 6000),
        collision_box_is("minecraft:villager"@, 19000, 6000),
        collision_box_is("minecraft:villager_v2"@, 19000, 6000),
        collision_box_is("minecraft:vindicator"@, 19000, 6000),
        collision_box_is("minecraft:wandering_trader"@, 19000, 6000),
        collision_box_is("minecraft:witch"@, 19000, 6000),
        collision_box_is("minecraft:zombie"@, 19000, 6000),
        collision_box_is("minecraft:zombie_pigman"@, 19000, 6000),
        collision_box_is("minecraft:zombie_villager"@, 19000, 6000),
        collision_box_is("minecraft:zombie_villager_v2"@, 19000, 6000),
        // 1.975 blocks tall, 0.5 blocks wide
        collision_box_is("minecraft:armor_stand"@, 19750, 5000),
        // 1.99 blocks tall, 1.99 blocks wide
        collision_box_is("minecraft:elder_guardian"@, 19900, 19900),
        // 2 blocks tall, 2 blocks wide
        collision_box_is("minecraft:ender_crystal"@, 20000, 20000),
        // 2.01 blocks tall, 0.72 blocks wide
        collision_box_is("minecraft:wither_skeleton"@, 20100, 7200),
        // 2.08 blocks tall, 2.08 blocks wide
        collision_box_is("minecraft:magma_cube"@, 20800, 20800),
        collision_box_is("minecraft:slime"@, 20800, 20800),
        // 2.1 blocks tall, 0.6 blocks wide
        collision_box_is("minecraft:npc"@, 21000, 6000),
        // 2.2 blocks tall, 1.95 blocks wide
        collision_box_is("minecraft:ravager"@, 22000, 19500),
        // 2.375 blocks tall, 1.7 blocks wide
        collision_box_is("minecraft:camel"@, 23750, 17000),
        collision_box_is("minecraft:camel_husk"@, 23750, 17000),
        // 2.7 blocks tall, 0.9 blocks wide
        collision_box_is("minecraft:creaking"@, 27000, 9000),
        // 2.9 blocks tall, 0.6 blocks wide
        collision_box_is("minecraft:enderman"@, 29000, 6000),
        // 2.9 blocks tall, 0.9 blocks wide
        collision_box_is("minecraft:warden"@, 29000, 9000),
        // 2.9 blocks tall, 1.4 blocks wide
        collision_box_is("minecraft:iron_golem"@, 29000, 14000),
        // 3 blocks tall, 1 blocks wide
        collision_box_is("minecraft:wither"@, 30000, 10000),
        // 4 blocks tall, 4 blocks wide
        collision_box_is("minecraft:happy_ghast"@, 40000, 40000),
        // 4 blocks tall, 4.02 blocks wide
        collision_box_is("minecraft:ghast"@, 40000, 40200),
        // 4 blocks tall, 13 blocks wide
        collision_box_is("minecraft:ender_dragon"@, 40000, 130000),
{
    lemma_collision_boxes_part_0();
    lemma_collision_boxes_part_1();
    lemma_collision_boxes_part_2();
    lemma_collision_boxes_part_3();
    lemma_collision_boxes_part_4();
    lemma_collision_boxes_part_5();
    lemma_collision_boxes_part_6();
    lemma_collision_boxes_part_7();
    lemma_collision_boxes_part_8();
    lemma_collision_boxes_part_9();
    lemma_collision_boxes_part_10();
    lemma_collision_boxes_part_11();
    lemma_collision_boxes_part_12();
    lemma_collision_boxes_part_13();
    lemma_collision_boxes_part_14();
    lemma_collision_boxes_part_15();
}

proof fn lemma_spawn_categories_part_0()
    ensures
        has_no_spawn_category("minecraft:area_effect_cloud"@),
        has_no_spawn_category("minecraft:armor_stand"@),
        has_no_spawn_category("minecraft:arrow"@),
        has_no_spawn_category("minecraft:boat"@),
        has_no_spawn_category("minecraft:breeze_wind_charge_projectile"@),
        has_no_spawn_category("minecraft:chest_boat"@),
        has_no_spawn_category("minecraft:chest_minecart"@),
        has_no_spawn_category("minecraft:command_block_minecart"@),
{
    lemma_lookup_finds_record(1);
    lemma_lookup_finds_record(3);
    lemma_lookup_finds_record(4);
    lemma_lookup_finds_record(9);
    lemma_lookup_finds_record(12);
    lemma_lookup_finds_record(17);
    lemma_lookup_finds_record(18);
    lemma_lookup_finds_record(21);
}

proof fn lemma_spawn_categories_part_1()
    ensures
        has_no_spawn_category("minecraft:copper_golem"@),
        has_no_spawn_category("minecraft:dragon_fireball"@),
        has_no_spawn_category("minecraft:egg"@),
        has_no_spawn_category("minecraft:ender_crystal"@),
        has_no_spawn_category("minecraft:ender_pearl"@),
        has_no_spawn_category("minecraft:eye_of_ender_signal"@),
        has_no_spawn_category("minecraft:fireball"@),
        has_no_spawn_category("minecraft:fireworks_rocket"@),
{
    lemma_lookup_finds_record(22);
    lemma_lookup_finds_record(28);
    lemma_lookup_finds_record(30);
    lemma_lookup_finds_record(32);
    lemma_lookup_finds_record(34);
    lemma_lookup_finds_record(38);
    lemma_lookup_finds_record(39);
    lemma_lookup_finds_record(40);
}

proof fn lemma_spawn_categories_part_2()
    ensures
        has_no_spawn_category("minecraft:fishing_hook"@),
        has_no_spawn_category("minecraft:hopper_minecart"@),
        has_no_spawn_category("minecraft:iron_golem"@),
        has_no_spawn_category("minecraft:lightning_bolt"@),
        has_no_spawn_category("minecraft:lingering_potion"@),
        has_no_spawn_category("minecraft:minecart"@),
        has_no_spawn_category("minecraft:nautilus"@),
        has_no_spawn_category("minecraft:ominous_item_spawner"@),
{
    lemma_lookup_finds_record(41);
    lemma_lookup_finds_record(50);
    lemma_lookup_finds_record(53);
    lemma_lookup_finds_record(54);
    lemma_lookup_finds_record(55);
    lemma_lookup_finds_record(59);
    lemma_lookup_finds_record(62);
    lemma_lookup_finds_record(65);
}

proof fn lemma_spawn_categories_part_3()
    ensures
        has_no_spawn_category("minecraft:shulker_bullet"@),
        has_no_spawn_category("minecraft:small_fireball"@),
        has_no_spawn_category("minecraft:snow_golem"@),
        has_no_spawn_category("minecraft:snowball"@),
        has_no_spawn_category("minecraft:splash_potion"@),
        has_no_spawn_category("minecraft:thrown_trident"@),
        has_no_spawn_category("minecraft:tnt"@),
        has_no_spawn_category("minecraft:tnt_minecart"@),
{
    lemma_lookup_finds_record(82);
    lemma_lookup_finds_record(87);
    lemma_lookup_finds_record(89);
    lemma_lookup_finds_record(90);
    lemma_lookup_finds_record(92);
    lemma_lookup_finds_record(97);
    lemma_lookup_finds_record(98);
    lemma_lookup_finds_record(99);
}

proof fn lemma_spawn_categories_part_4()
    ensures
        has_no_spawn_category("minecraft:tripod_camera"@),
        has_no_spawn_category("minecraft:villager"@),
        has_no_spawn_category("minecraft:villager_v2"@),
        has_no_spawn_category("minecraft:wind_charge_projectile"@),
        has_no_spawn_category("minecraft:wither_skull"@),
        has_no_spawn_category("minecraft:wither_skull_dangerous"@),
        has_no_spawn_category("minecraft:xp_bottle"@),
        has_no_spawn_category("minecraft:xp_orb"@),
{
    lemma_lookup_finds_record(101);
    lemma_lookup_finds_record(105);
    lemma_lookup_finds_record(106);
    lemma_lookup_finds_record(110);
    lemma_lookup_finds_record(114);
    lemma_lookup_finds_record(115);
    lemma_lookup_finds_record(117);
    lemma_lookup_finds_record(118);
}

proof fn lemma_spawn_categories_part_5()
    ensures
        has_no_spawn_category("minecraft:zombie_nautilus"@),
        has_no_spawn_category("minecraft:zombie_pigman"@),
        has_no_spawn_category("minecraft:zombie_villager_v2"@),
        spawn_category_is("minecraft:bat"@, "ambient"),
        spawn_category_is("minecraft:axolotl"@, "axolotls"),
        spawn_category_is("minecraft:allay"@, "creature"),
        spawn_category_is("minecraft:armadillo"@, "creature"),
        spawn_category_is("minecraft:bee"@, "creature"),
{
    lemma_lookup_finds_record(122);
    lemma_lookup_finds_record(123);
    lemma_lookup_finds_record(125);
    lemma_lookup_finds_record(6);
    lemma_lookup_finds_record(5);
    lemma_lookup_finds_record(0);
    lemma_lookup_finds_record(2);
    lemma_lookup_finds_record(7);
}

proof fn lemma_spawn_categories_part_6()
    ensures
        spawn_category_is("minecraft:camel"@, "creature"),
        spawn_category_is("minecraft:cat"@, "creature"),
        spawn_category_is("minecraft:chicken"@, "creature"),
        spawn_category_is("minecraft:cow"@, "creature"),
        spawn_category_is("minecraft:donkey"@, "creature"),
        spawn_category_is("minecraft:fox"@, "creature"),
        spawn_category_is("minecraft:frog"@, "creature"),
        spawn_category_is("minecraft:goat"@, "creature"),
{
    lemma_lookup_finds_record(13);
    lemma_lookup_finds_record(15);
    lemma_lookup_finds_record(19);
    lemma_lookup_finds_record(23);
    lemma_lookup_finds_record(27);
    lemma_lookup_finds_record(42);
    lemma_lookup_finds_record(43);
    lemma_lookup_finds_record(46);
}

proof fn lemma_spawn_categories_part_7()
    ensures
        spawn_category_is("minecraft:happy_ghast"@, "creature"),
        spawn_category_is("minecraft:horse"@, "creature"),
        spawn_category_is("minecraft:llama"@, "creature"),
        spawn_category_is("minecraft:mooshroom"@, "creature"),
        spawn_category_is("minecraft:mule"@, "creature"),
        spawn_category_is("minecraft:npc"@, "creature"),
        spawn_category_is("minecraft:ocelot"@, "creature"),
        spawn_category_is("minecraft:panda"@, "creature"),
{
    lemma_lookup_finds_record(48);
    lemma_lookup_finds_record(51);
    lemma_lookup_finds_record(56);
    lemma_lookup_finds_record(60);
    lemma_lookup_finds_record(61);
    lemma_lookup_finds_record(63);
    lemma_lookup_finds_record(64);
    lemma_lookup_finds_record(66);
}

proof fn lemma_spawn_categories_part_8()
    ensures
        spawn_category_is("minecraft:parrot"@, "creature"),
        spawn_category_is("minecraft:pig"@, "creature"),
        spawn_category_is("minecraft:player"@, "creature"),
        spawn_category_is("minecraft:polar_bear"@, "creature"),
        spawn_category_is("minecraft:rabbit"@, "creature"),
        spawn_category_is("minecraft:sheep"@, "creature"),
        spawn_category_is("minecraft:skeleton_horse"@, "creature"),
        spawn_category_is("minecraft:sniffer"@, "creature"),
{
    lemma_lookup_finds_record(68);
    lemma_lookup_finds_record(70);
    lemma_lookup_finds_record(74);
    lemma_lookup_finds_record(75);
    lemma_lookup_finds_record(77);
    lemma_lookup_finds_record(80);
    lemma_lookup_finds_record(85);
    lemma_lookup_finds_record(88);
}

proof fn lemma_spawn_categories_part_9()
    ensures
        spawn_category_is("minecraft:strider"@, "creature"),
        spawn_category_is("minecraft:tadpole"@, "creature"),
        spawn_category_is("minecraft:trader_llama"@, "creature"),
        spawn_category_is("minecraft:turtle"@, "creature"),
        spawn_category_is("minecraft:wandering_trader"@, "creature"),
        spawn_category_is("minecraft:wolf"@, "creature"),
        spawn_category_is("minecraft:llama_spit"@, "misc"),
        spawn_category_is("minecraft:blaze"@, "monster"),
{
    lemma_lookup_finds_record(95);
    lemma_lookup_finds_record(96);
    lemma_lookup_finds_record(100);
    lemma_lookup_finds_record(103);
    lemma_lookup_finds_record(108);
    lemma_lookup_finds_record(116);
    lemma_lookup_finds_record(57);
    lemma_lookup_finds_record(8);
}

proof fn lemma_spawn_categories_part_10()
    ensures
        spawn_category_is("minecraft:bogged"@, "monster"),
        spawn_category_is("minecraft:breeze"@, "monster"),
        spawn_category_is("minecraft:camel_husk"@, "monster"),
        spawn_category_is("minecraft:cave_spider"@, "monster"),
        spawn_category_is("minecraft:creaking"@, "monster"),
        spawn_category_is("minecraft:creeper"@, "monster"),
        spawn_category_is("minecraft:drowned"@, "monster"),
        spawn_category_is("minecraft:elder_guardian"@, "monster"),
{
    lemma_lookup_finds_record(10);
    lemma_lookup_finds_record(11);
    lemma_lookup_finds_record(14);
    lemma_lookup_finds_record(16);
    lemma_lookup_finds_record(24);
    lemma_lookup_finds_record(25);
    lemma_lookup_finds_record(29);
    lemma_lookup_finds_record(31);
}

proof fn lemma_spawn_categories_part_11()
    ensures
        spawn_category_is("minecraft:ender_dragon"@, "monster"),
        spawn_category_is("minecraft:enderman"@, "monster"),
        spawn_category_is("minecraft:endermite"@, "monster"),
        spawn_category_is("minecraft:evocation_illager"@, "monster"),
        spawn_category_is("minecraft:ghast"@, "monster"),
        spawn_category_is("minecraft:guardian"@, "monster"),
        spawn_category_is("minecraft:hoglin"@, "monster"),
        spawn_category_is("minecraft:husk"@, "monster"),
{
    lemma_lookup_finds_record(33);
    lemma_lookup_finds_record(35);
    lemma_lookup_finds_record(36);
    lemma_lookup_finds_record(37);
    lemma_lookup_finds_record(44);
    lemma_lookup_finds_record(47);
    lemma_lookup_finds_record(49);
    lemma_lookup_finds_record(52);
}

proof fn lemma_spawn_categories_part_12()
    ensures
        spawn_category_is("minecraft:magma_cube"@, "monster"),
        spawn_category_is("minecraft:parched"@, "monster"),
        spawn_category_is("minecraft:phantom"@, "monster"),
        spawn_category_is("minecraft:piglin"@, "monster"),
        spawn_category_is("minecraft:piglin_brute"@, "monster"),
        spawn_category_is("minecraft:pillager"@, "monster"),
        spawn_category_is("minecraft:ravager"@, "monster"),
        spawn_category_is("minecraft:shulker"@, "monster"),
{
    lemma_lookup_finds_record(58);
    lemma_lookup_finds_record(67);
    lemma_lookup_finds_record(69);
    lemma_lookup_finds_record(71);
    lemma_lookup_finds_record(72);
    lemma_lookup_finds_record(73);
    lemma_lookup_finds_record(78);
    lemma_lookup_finds_record(81);
}

proof fn lemma_spawn_categories_part_13()
    ensures
        spawn_category_is("minecraft:silverfish"@, "monster"),
        spawn_category_is("minecraft:skeleton"@, "monster"),
        spawn_category_is("minecraft:slime"@, "monster"),
        spawn_category_is("minecraft:spider"@, "monster"),
        spawn_category_is("minecraft:stray"@, "monster"),
        spawn_category_is("minecraft:vex"@, "monster"),
        spawn_category_is("minecraft:vindicator"@, "monster"),
        spawn_category_is("minecraft:warden"@, "monster"),
{
    lemma_lookup_finds_record(83);
    lemma_lookup_finds_record(84);
    lemma_lookup_finds_record(86);
    lemma_lookup_finds_record(91);
    lemma_lookup_finds_record(94);
    lemma_lookup_finds_record(104);
    lemma_lookup_finds_record(107);
    lemma_lookup_finds_record(109);
}

proof fn lemma_spawn_categories_part_14()
    ensures
        spawn_category_is("minecraft:witch"@, "monster"),
        spawn_category_is("minecraft:wither"@, "monster"),
        spawn_category_is("minecraft:wither_skeleton"@, "monster"),
        spawn_category_is("minecraft:zoglin"@, "monster"),
        spawn_category_is("minecraft:zombie"@, "monster"),
        spawn_category_is("minecraft:zombie_horse"@, "monster"),
        spawn_category_is("minecraft:zombie_villager"@, "monster"),
        spawn_category_is("minecraft:glow_squid"@, "underground_water_creature"),
{
    lemma_lookup_finds_record(111);
    lemma_lookup_finds_record(112);
    lemma_lookup_finds_record(113);
    lemma_lookup_finds_record(119);
    lemma_lookup_finds_record(120);
    lemma_lookup_finds_record(121);
    lemma_lookup_finds_record(124);
    lemma_lookup_finds_record(45);
}

proof fn lemma_spawn_categories_part_15()
    ensures
        spawn_category_is("minecraft:cod"@, "water_ambient"),
        spawn_category_is("minecraft:pufferfish"@, "water_ambient"),
        spawn_category_is("minecraft:salmon"@, "water_ambient"),
        spawn_category_is("minecraft:tropicalfish"@, "water_ambient"),
        spawn_category_is("minecraft:dolphin"@, "water_creature"),
        spawn_category_is("minecraft:squid"@, "water_creature"),
{
    lemma_lookup_finds_record(20);
    lemma_lookup_finds_record(76);
    lemma_lookup_finds_record(79);
    lemma_lookup_finds_record(102);
    lemma_lookup_finds_record(26);
    lemma_lookup_finds_record(93);
}

/// The vanilla spawn category of every registered entity.
pub proof fn lemma_spawn_categories()
    ensures
        // no spawn category
        has_no_spawn_category("minecraft:area_effect_cloud"@),
        has_no_spawn_category("minecraft:armor_stand"@),
        has_no_spawn_category("minecraft:arrow"@),
        has_no_spawn_category("minecraft:boat"@),
        has_no_spawn_category("minecraft:breeze_wind_charge_projectile"@),
        has_no_spawn_category("minecraft:chest_boat"@),
        has_no_spawn_category("minecraft:chest_minecart"@),
        has_no_spawn_category("minecraft:command_block_minecart"@),
        has_no_spawn_category("minecraft:copper_golem"@),
        has_no_spawn_category("minecraft:dragon_fireball"@),
        has_no_spawn_category("minecraft:egg"@),
        has_no_spawn_category("minecraft:ender_crystal"@),
        has_no_spawn_category("minecraft:ender_pearl"@),
        has_no_spawn_category("minecraft:eye_of_ender_signal"@),
        has_no_spawn_category("minecraft:fireball"@),
        has_no_spawn_category("minecraft:fireworks_rocket"@),
        has_no_spawn_category("minecraft:fishing_hook"@),
        has_no_spawn_category("minecraft:hopper_minecart"@),
        has_no_spawn_category("minecraft:iron_golem"@),
        has_no_spawn_category("minecraft:lightning_bolt"@),
        has_no_spawn_category("minecraft:lingering_potion"@),
        has_no_spawn_category("minecraft:minecart"@),
        has_no_spawn_category("minecraft:nautilus"@),
        has_no_spawn_category("minecraft:ominous_item_spawner"@),
        has_no_spawn_category("minecraft:shulker_bullet"@),
        has_no_spawn_category("minecraft:small_fireball"@),
        has_no_spawn_category("minecraft:snow_golem"@),
        has_no_spawn_category("minecraft:snowball"@),
        has_no_spawn_category("minecraft:splash_potion"@),
        has_no_spawn_category("minecraft:thrown_trident"@),
        has_no_spawn_category("minecraft:tnt"@),
        has_no_spawn_category("minecraft:tnt_minecart"@),
        has_no_spawn_category("minecraft:tripod_camera"@),
        has_no_spawn_category("minecraft:villager"@),
        has_no_spawn_category("minecraft:villager_v2"@),
        has_no_spawn_category("minecraft:wind_charge_projectile"@),
        has_no_spawn_category("minecraft:wither_skull"@),
        has_no_spawn_category("minecraft:wither_skull_dangerous"@),
        has_no_spawn_category("minecraft:xp_bottle"@),
        has_no_spawn_category("minecraft:xp_orb"@),
        has_no_spawn_category("minecraft:zombie_nautilus"@),
        has_no_spawn_category("minecraft:zombie_pigman"@),
        has_no_spawn_category("minecraft:zombie_villager_v2"@),
        // ambient
        spawn_category_is("minecraft:bat"@, "ambient"),
        // axolotls
        spawn_category_is("minecraft:axolotl"@, "axolotls"),
        // creature
        spawn_category_is("minecraft:allay"@, "creature"),
        spawn_category_is("minecraft:armadillo"@, "creature"),
        spawn_category_is("minecraft:bee"@, "creature"),
        spawn_category_is("minecraft:camel"@, "creature"),
        spawn_category_is("minecraft:cat"@, "creature"),
        spawn_category_is("minecraft:chicken"@, "creature"),
        spawn_category_is("minecraft:cow"@, "creature"),
        spawn_category_is("minecraft:donkey"@, "creature"),
        spawn_category_is("minecraft:fox"@, "creature"),
        spawn_category_is("minecraft:frog"@, "creature"),
        spawn_category_is("minecraft:goat"@, "creature"),
        spawn_category_is("minecraft:happy_ghast"@, "creature"),
        spawn_category_is("minecraft:horse"@, "creature"),
        spawn_category_is("minecraft:llama"@, "creature"),
        spawn_category_is("minecraft:mooshroom"@, "creature"),
        spawn_category_is("minecraft:mule"@, "creature"),
        spawn_category_is("minecraft:npc"@, "creature"),
        spawn_category_is("minecraft:ocelot"@, "creature"),
        spawn_category_is("minecraft:panda"@, "creature"),
        spawn_category_is("minecraft:parrot"@, "creature"),
        spawn_category_is("minecraft:pig"@, "creature"),
        spawn_category_is("minecraft:player"@, "creature"),
        spawn_category_is("minecraft:polar_bear"@, "creature"),
        spawn_category_is("minecraft:rabbit"@, "creature"),
        spawn_category_is("minecraft:sheep"@, "creature"),
        spawn_category_is("minecraft:skeleton_horse"@, "creature"),
        spawn_category_is("minecraft:sniffer"@, "creature"),
        spawn_category_is("minecraft:strider"@, "creature"),
        spawn_category_is("minecraft:tadpole"@, "creature"),
        spawn_category_is("minecraft:trader_llama"@, "creature"),
        spawn_category_is("minecraft:turtle"@, "creature"),
        spawn_category_is("minecraft:wandering_trader"@, "creature"),
        spawn_category_is("minecraft:wolf"@, "creature"),
        // misc
        spawn_category_is("minecraft:llama_spit"@, "misc"),
        // monster
        spawn_category_is("minecraft:blaze"@, "monster"),
        spawn_category_is("minecraft:bogged"@, "monster"),
        spawn_category_is("minecraft:breeze"@, "monster"),
        spawn_category_is("minecraft:camel_husk"@, "monster"),
        spawn_category_is("minecraft:cave_spider"@, "monster"),
        spawn_category_is("minecraft:creaking"@, "monster"),
        spawn_category_is("minecraft:creeper"@, "monster"),
        spawn_category_is("minecraft:drowned"@, "monster"),
        spawn_category_is("minecraft:elder_guardian"@, "monster"),
        spawn_category_is("minecraft:ender_dragon"@, "monster"),
        spawn_category_is("minecraft:enderman"@, "monster"),
        spawn_category_is("minecraft:endermite"@, "monster"),
        spawn_category_is("minecraft:evocation_illager"@, "monster"),
        spawn_category_is("minecraft:ghast"@, "monster"),
        spawn_category_is("minecraft:guardian"@, "monster"),
        spawn_category_is("minecraft:hoglin"@, "monster"),
        spawn_category_is("minecraft:husk"@, "monster"),
        spawn_category_is("minecraft:magma_cube"@, "monster"),
        spawn_category_is("minecraft:parched"@, "monster"),
        spawn_category_is("minecraft:phantom"@, "monster"),
        spawn_category_is("minecraft:piglin"@, "monster"),
        spawn_category_is("minecraft:piglin_brute"@, "monster"),
        spawn_category_is("minecraft:pillager"@, "monster"),
        spawn_category_is("minecraft:ravager"@, "monster"),
        spawn_category_is("minecraft:shulker"@, "monster"),
        spawn_category_is("minecraft:silverfish"@, "monster"),
        spawn_category_is("minecraft:skeleton"@, "monster"),
        spawn_category_is("minecraft:slime"@, "monster"),
        spawn_category_is("minecraft:spider"@, "monster"),
        spawn_category_is("minecraft:stray"@, "monster"),
        spawn_category_is("minecraft:vex"@, "monster"),
        spawn_category_is("minecraft:vindicator"@, "monster"),
        spawn_category_is("minecraft:warden"@, "monster"),
        spawn_category_is("minecraft:witch"@, "monster"),
        spawn_category_is("minecraft:wither"@, "monster"),
        spawn_category_is("minecraft:wither_skeleton"@, "monster"),
        spawn_category_is("minecraft:zoglin"@, "monster"),
        spawn_category_is("minecraft:zombie"@, "monster"),
        spawn_category_is("minecraft:zombie_horse"@, "monster"),
        spawn_category_is("minecraft:zombie_villager"@, "monster"),
        // underground_water_creature
        spawn_category_is("minecraft:glow_squid"@, "underground_water_creature"),
        // water_ambient
        spawn_category_is("minecraft:cod"@, "water_ambient"),
        spawn_category_is("minecraft:pufferfish"@, "water_ambient"),
        spawn_category_is("minecraft:salmon"@, "water_ambient"),
        spawn_category_is("minecraft:tropicalfish"@, "water_ambient"),
        // water_creature
        spawn_category_is("minecraft:dolphin"@, "water_creature"),
        spawn_category_is("minecraft:squid"@, "water_creature"),
{
    lemma_spawn_categories_part_0();
    lemma_spawn_categories_part_1();
    lemma_spawn_categories_part_2();
    lemma_spawn_categories_part_3();
    lemma_spawn_categories_part_4();
    lemma_spawn_categories_part_5();
    lemma_spawn_categories_part_6();
    lemma_spawn_categories_part_7();
    lemma_spawn_categories_part_8();
    lemma_spawn_categories_part_9();
    lemma_spawn_categories_part_10();
    lemma_spawn_categories_part_11();
    lemma_spawn_categories_part_12();
    lemma_spawn_categories_part_13();
    lemma_spawn_categories_part_14();
    lemma_spawn_categories_part_15();
}

proof fn lemma_spawn_flags_part_0()
    ensures
        spawn_flags_are("minecraft:area_effect_cloud"@, false, false),
        spawn_flags_are("minecraft:breeze_wind_charge_projectile"@, false, false),
        spawn_flags_are("minecraft:dragon_fireball"@, false, false),
        spawn_flags_are("minecraft:ender_pearl"@, false, false),
        spawn_flags_are("minecraft:eye_of_ender_signal"@, false, false),
        spawn_flags_are("minecraft:fireball"@, false, false),
        spawn_flags_are("minecraft:fishing_hook"@, false, false),
        spawn_flags_are("minecraft:lingering_potion"@, false, false),
{
    lemma_lookup_finds_record(1);
    lemma_lookup_finds_record(12);
    lemma_lookup_finds_record(28);
    lemma_lookup_finds_record(34);
    lemma_lookup_finds_record(38);
    lemma_lookup_finds_record(39);
    lemma_lookup_finds_record(41);
    lemma_lookup_finds_record(55);
}

proof fn lemma_spawn_flags_part_1()
    ensures
        spawn_flags_are("minecraft:llama_spit"@, false, false),
        spawn_flags_are("minecraft:ominous_item_spawner"@, false, false),
        spawn_flags_are("minecraft:player"@, false, false),
        spawn_flags_are("minecraft:shulker_bullet"@, false, false),
        spawn_flags_are("minecraft:small_fireball"@, false, false),
        spawn_flags_are("minecraft:thrown_trident"@, false, false),
        spawn_flags_are("minecraft:tripod_camera"@, false, false),
        spawn_flags_are("minecraft:wither_skull"@, false, false),
{
    lemma_lookup_finds_record(57);
    lemma_lookup_finds_record(65);
    lemma_lookup_finds_record(74);
    lemma_lookup_finds_record(82);
    lemma_lookup_finds_record(87);
    lemma_lookup_finds_record(97);
    lemma_lookup_finds_record(101);
    lemma_lookup_finds_record(114);
}

proof fn lemma_spawn_flags_part_2()
    ensures
        spawn_flags_are("minecraft:wither_skull_dangerous"@, false, false),
        spawn_flags_are("minecraft:armor_stand"@, false, true),
        spawn_flags_are("minecraft:arrow"@, false, true),
        spawn_flags_are("minecraft:boat"@, false, true),
        spawn_flags_are("minecraft:chest_boat"@, false, true),
        spawn_flags_are("minecraft:chest_minecart"@, false, true),
        spawn_flags_are("minecraft:command_block_minecart"@, false, true),
        spawn_flags_are("minecraft:egg"@, false, true),
{
    lemma_lookup_finds_record(115);
    lemma_lookup_finds_record(3);
    lemma_lookup_finds_record(4);
    lemma_lookup_finds_record(9);
    lemma_lookup_finds_record(17);
    lemma_lookup_finds_record(18);
    lemma_lookup_finds_record(21);
    lemma_lookup_finds_record(30);
}

proof fn lemma_spawn_flags_part_3()
    ensures
        spawn_flags_are("minecraft:ender_crystal"@, false, true),
        spawn_flags_are("minecraft:fireworks_rocket"@, false, true),
        spawn_flags_are("minecraft:hopper_minecart"@, false, true),
        spawn_flags_are("minecraft:lightning_bolt"@, false, true),
        spawn_flags_are("minecraft:minecart"@, false, true),
        spawn_flags_are("minecraft:snowball"@, false, true),
        spawn_flags_are("minecraft:splash_potion"@, false, true),
        spawn_flags_are("minecraft:tnt"@, false, true),
{
    lemma_lookup_finds_record(32);
    lemma_lookup_finds_record(40);
    lemma_lookup_finds_record(50);
    lemma_lookup_finds_record(54);
    lemma_lookup_finds_record(59);
    lemma_lookup_finds_record(90);
    lemma_lookup_finds_record(92);
    lemma_lookup_finds_record(98);
}

proof fn lemma_spawn_flags_part_4()
    ensures
        spawn_flags_are("minecraft:tnt_minecart"@, false, true),
        spawn_flags_are("minecraft:wind_charge_projectile"@, false, true),
        spawn_flags_are("minecraft:xp_bottle"@, false, true),
        spawn_flags_are("minecraft:xp_orb"@, false, true),
        spawn_flags_are("minecraft:villager_v2"@, true, false),
        spawn_flags_are("minecraft:zombie_villager_v2"@, true, false),
        spawn_flags_are("minecraft:allay"@, true, true),
        spawn_flags_are("minecraft:armadillo"@, true, true),
{
    lemma_lookup_finds_record(99);
    lemma_lookup_finds_record(110);
    lemma_lookup_finds_record(117);
    lemma_lookup_finds_record(118);
    lemma_lookup_finds_record(106);
    lemma_lookup_finds_record(125);
    lemma_lookup_finds_record(0);
    lemma_lookup_finds_record(2);
}

proof fn lemma_spawn_flags_part_5()
    ensures
        spawn_flags_are("minecraft:axolotl"@, true, true),
        spawn_flags_are("minecraft:bat"@, true, true),
        spawn_flags_are("minecraft:bee"@, true, true),
        spawn_flags_are("minecraft:blaze"@, true, true),
        spawn_flags_are("minecraft:bogged"@, true, true),
        spawn_flags_are("minecraft:breeze"@, true, true),
        spawn_flags_are("minecraft:camel"@, true, true),
        spawn_flags_are("minecraft:camel_husk"@, true, true),
{
    lemma_lookup_finds_record(5);
    lemma_lookup_finds_record(6);
    lemma_lookup_finds_record(7);
    lemma_lookup_finds_record(8);
    lemma_lookup_finds_record(10);
    lemma_lookup_finds_record(11);
    lemma_lookup_finds_record(13);
    lemma_lookup_finds_record(14);
}

proof fn lemma_spawn_flags_part_6()
    ensures
        spawn_flags_are("minecraft:cat"@, true, true),
        spawn_flags_are("minecraft:cave_spider"@, true, true),
        spawn_flags_are("minecraft:chicken"@, true, true),
        spawn_flags_are("minecraft:cod"@, true, true),
        spawn_flags_are("minecraft:copper_golem"@, true, true),
        spawn_flags_are("minecraft:cow"@, true, true),
        spawn_flags_are("minecraft:creaking"@, true, true),
        spawn_flags_are("minecraft:creeper"@, true, true),
{
    lemma_lookup_finds_record(15);
    lemma_lookup_finds_record(16);
    lemma_lookup_finds_record(19);
    lemma_lookup_finds_record(20);
    lemma_lookup_finds_record(22);
    lemma_lookup_finds_record(23);
    lemma_lookup_finds_record(24);
    lemma_lookup_finds_record(25);
}

proof fn lemma_spawn_flags_part_7()
    ensures
        spawn_flags_are("minecraft:dolphin"@, true, true),
        spawn_flags_are("minecraft:donkey"@, true, true),
        spawn_flags_are("minecraft:drowned"@, true, true),
        spawn_flags_are("minecraft:elder_guardian"@, true, true),
        spawn_flags_are("minecraft:ender_dragon"@, true, true),
        spawn_flags_are("minecraft:enderman"@, true, true),
        spawn_flags_are("minecraft:endermite"@, true, true),
        spawn_flags_are("minecraft:evocation_illager"@, true, true),
{
    lemma_lookup_finds_record(26);
    lemma_lookup_finds_record(27);
    lemma_lookup_finds_record(29);
    lemma_lookup_finds_record(31);
    lemma_lookup_finds_record(33);
    lemma_lookup_finds_record(35);
    lemma_lookup_finds_record(36);
    lemma_lookup_finds_record(37);
}

proof fn lemma_spawn_flags_part_8()
    ensures
        spawn_flags_are("minecraft:fox"@, true, true),
        spawn_flags_are("minecraft:frog"@, true, true),
        spawn_flags_are("minecraft:ghast"@, true, true),
        spawn_flags_are("minecraft:glow_squid"@, true, true),
        spawn_flags_are("minecraft:goat"@, true, true),
        spawn_flags_are("minecraft:guardian"@, true, true),
        spawn_flags_are("minecraft:happy_ghast"@, true, true),
        spawn_flags_are("minecraft:hoglin"@, true, true),
{
    lemma_lookup_finds_record(42);
    lemma_lookup_finds_record(43);
    lemma_lookup_finds_record(44);
    lemma_lookup_finds_record(45);
    lemma_lookup_finds_record(46);
    lemma_lookup_finds_record(47);
    lemma_lookup_finds_record(48);
    lemma_lookup_finds_record(49);
}

proof fn lemma_spawn_flags_part_9()
    ensures
        spawn_flags_are("minecraft:horse"@, true, true),
        spawn_flags_are("minecraft:husk"@, true, true),
        spawn_flags_are("minecraft:iron_golem"@, true, true),
        spawn_flags_are("minecraft:llama"@, true, true),
        spawn_flags_are("minecraft:magma_cube"@, true, true),
        spawn_flags_are("minecraft:mooshroom"@, true, true),
        spawn_flags_are("minecraft:mule"@, true, true),
        spawn_flags_are("minecraft:nautilus"@, true, true),
{
    lemma_lookup_finds_record(51);
    lemma_lookup_finds_record(52);
    lemma_lookup_finds_record(53);
    lemma_lookup_finds_record(56);
    lemma_lookup_finds_record(58);
    lemma_lookup_finds_record(60);
    lemma_lookup_finds_record(61);
    lemma_lookup_finds_record(62);
}

proof fn lemma_spawn_flags_part_10()
    ensures
        spawn_flags_are("minecraft:npc"@, true, true),
        spawn_flags_are("minecraft:ocelot"@, true, true),
        spawn_flags_are("minecraft:panda"@, true, true),
        spawn_flags_are("minecraft:parched"@, true, true),
        spawn_flags_are("minecraft:parrot"@, true, true),
        spawn_flags_are("minecraft:phantom"@, true, true),
        spawn_flags_are("minecraft:pig"@, true, true),
        spawn_flags_are("minecraft:piglin"@, true, true),
{
    lemma_lookup_finds_record(63);
    lemma_lookup_finds_record(64);
    lemma_lookup_finds_record(66);
    lemma_lookup_finds_record(67);
    lemma_lookup_finds_record(68);
    lemma_lookup_finds_record(69);
    lemma_lookup_finds_record(70);
    lemma_lookup_finds_record(71);
}

proof fn lemma_spawn_flags_part_11()
    ensures
        spawn_flags_are("minecraft:piglin_brute"@, true, true),
        spawn_flags_are("minecraft:pillager"@, true, true),
        spawn_flags_are("minecraft:polar_bear"@, true, true),
        spawn_flags_are("minecraft:pufferfish"@, true, true),
        spawn_flags_are("minecraft:rabbit"@, true, true),
        spawn_flags_are("minecraft:ravager"@, true, true),
        spawn_flags_are("minecraft:salmon"@, true, true),
        spawn_flags_are("minecraft:sheep"@, true, true),
{
    lemma_lookup_finds_record(72);
    lemma_lookup_finds_record(73);
    lemma_lookup_finds_record(75);
    lemma_lookup_finds_record(76);
    lemma_lookup_finds_record(77);
    lemma_lookup_finds_record(78);
    lemma_lookup_finds_record(79);
    lemma_lookup_finds_record(80);
}

proof fn lemma_spawn_flags_part_12()
    ensures
        spawn_flags_are("minecraft:shulker"@, true, true),
        spawn_flags_are("minecraft:silverfish"@, true, true),
        spawn_flags_are("minecraft:skeleton"@, true, true),
        spawn_flags_are("minecraft:skeleton_horse"@, true, true),
        spawn_flags_are("minecraft:slime"@, true, true),
        spawn_flags_are("minecraft:sniffer"@, true, true),
        spawn_flags_are("minecraft:snow_golem"@, true, true),
        spawn_flags_are("minecraft:spider"@, true, true),
{
    lemma_lookup_finds_record(81);
    lemma_lookup_finds_record(83);
    lemma_lookup_finds_record(84);
    lemma_lookup_finds_record(85);
    lemma_lookup_finds_record(86);
    lemma_lookup_finds_record(88);
    lemma_lookup_finds_record(89);
    lemma_lookup_finds_record(91);
}

proof fn lemma_spawn_flags_part_13()
    ensures
        spawn_flags_are("minecraft:squid"@, true, true),
        spawn_flags_are("minecraft:stray"@, true, true),
        spawn_flags_are("minecraft:strider"@, true, true),
        spawn_flags_are("minecraft:tadpole"@, true, true),
        spawn_flags_are("minecraft:trader_llama"@, true, true),
        spawn_flags_are("minecraft:tropicalfish"@, true, true),
        spawn_flags_are("minecraft:turtle"@, true, true),
        spawn_flags_are("minecraft:vex"@, true, true),
{
    lemma_lookup_finds_record(93);
    lemma_lookup_finds_record(94);
    lemma_lookup_finds_record(95);
    lemma_lookup_finds_record(96);
    lemma_lookup_finds_record(100);
    lemma_lookup_finds_record(102);
    lemma_lookup_finds_record(103);
    lemma_lookup_finds_record(104);
}

proof fn lemma_spawn_flags_part_14()
    ensures
        spawn_flags_are("minecraft:villager"@, true, true),
        spawn_flags_are("minecraft:vindicator"@, true, true),
        spawn_flags_are("minecraft:wandering_trader"@, true, true),
        spawn_flags_are("minecraft:warden"@, true, true),
        spawn_flags_are("minecraft:witch"@, true, true),
        spawn_flags_are("minecraft:wither"@, true, true),
        spawn_flags_are("minecraft:wither_skeleton"@, true, true),
        spawn_flags_are("minecraft:wolf"@, true, true),
{
    lemma_lookup_finds_record(105);
    lemma_lookup_finds_record(107);
    lemma_lookup_finds_record(108);
    lemma_lookup_finds_record(109);
    lemma_lookup_finds_record(111);
    lemma_lookup_finds_record(112);
    lemma_lookup_finds_record(113);
    lemma_lookup_finds_record(116);
}

proof fn lemma_spawn_flags_part_15()
    ensures
        spawn_flags_are("minecraft:zoglin"@, true, true),
        spawn_flags_are("minecraft:zombie"@, true, true),
        spawn_flags_are("minecraft:zombie_horse"@, true, true),
        spawn_flags_are("minecraft:zombie_nautilus"@, true, true),
        spawn_flags_are("minecraft:zombie_pigman"@, true, true),
        spawn_flags_are("minecraft:zombie_villager"@, true, true),
{
    lemma_lookup_finds_record(119);
    lemma_lookup_finds_record(120);
    lemma_lookup_finds_record(121);
    lemma_lookup_finds_record(122);
    lemma_lookup_finds_record(123);
    lemma_lookup_finds_record(124);
}

/// The spawn flags of every registered entity.
pub proof fn lemma_spawn_flags()
    ensures
        // neither spawns naturally nor can be summoned
        spawn_flags_are("minecraft:area_effect_cloud"@, false, false),
        spawn_flags_are("minecraft:breeze_wind_charge_projectile"@, false, false),
        spawn_flags_are("minecraft:dragon_fireball"@, false, false),
        spawn_flags_are("minecraft:ender_pearl"@, false, false),
        spawn_flags_are("minecraft:eye_of_ender_signal"@, false, false),
        spawn_flags_are("minecraft:fireball"@, false, false),
        spawn_flags_are("minecraft:fishing_hook"@, false, false),
        spawn_flags_are("minecraft:lingering_potion"@, false, false),
        spawn_flags_are("minecraft:llama_spit"@, false, false),
        spawn_flags_are("minecraft:ominous_item_spawner"@, false, false),
        spawn_flags_are("minecraft:player"@, false, false),
        spawn_flags_are("minecraft:shulker_bullet"@, false, false),
        spawn_flags_are("minecraft:small_fireball"@, false, false),
        spawn_flags_are("minecraft:thrown_trident"@, false, false),
        spawn_flags_are("minecraft:tripod_camera"@, false, false),
        spawn_flags_are("minecraft:wither_skull"@, false, false),
        spawn_flags_are("minecraft:wither_skull_dangerous"@, false, false),
        // does not spawn naturally, can be summoned
        spawn_flags_are("minecraft:armor_stand"@, false, true),
        spawn_flags_are("minecraft:arrow"@, false, true),
        spawn_flags_are("minecraft:boat"@, false, true),
        spawn_flags_are("minecraft:chest_boat"@, false, true),
        spawn_flags_are("minecraft:chest_minecart"@, false, true),
        spawn_flags_are("minecraft:command_block_minecart"@, false, true),
        spawn_flags_are("minecraft:egg"@, false, true),
        spawn_flags_are("minecraft:ender_crystal"@, false, true),
        spawn_flags_are("minecraft:fireworks_rocket"@, false, true),
        spawn_flags_are("minecraft:hopper_minecart"@, false, true),
        spawn_flags_are("minecraft:lightning_bolt"@, false, true),
        spawn_flags_are("minecraft:minecart"@, false, true),
        spawn_flags_are("minecraft:snowball"@, false, true),
        spawn_flags_are("minecraft:splash_potion"@, false, true),
        spawn_flags_are("minecraft:tnt"@, false, true),
        spawn_flags_are("minecraft:tnt_minecart"@, false, true),
        spawn_flags_are("minecraft:wind_charge_projectile"@, false, true),
        spawn_flags_are("minecraft:xp_bottle"@, false, true),
        spawn_flags_are("minecraft:xp_orb"@, false, true),
        // spawns naturally, cannot be summoned
        spawn_flags_are("minecraft:villager_v2"@, true, false),
        spawn_flags_are("minecraft:zombie_villager_v2"@, true, false),
        // spawns naturally and can be summoned
        spawn_flags_are("minecraft:allay"@, true, true),
        spawn_flags_are("minecraft:armadillo"@, true, true),
        spawn_flags_are("minecraft:axolotl"@, true, true),
        spawn_flags_are("minecraft:bat"@, true, true),
        spawn_flags_are("minecraft:bee"@, true, true),
        spawn_flags_are("minecraft:blaze"@, true, true),
        spawn_flags_are("minecraft:bogged"@, true, true),
        spawn_flags_are("minecraft:breeze"@, true, true),
        spawn_flags_are("minecraft:camel"@, true, true),
        spawn_flags_are("minecraft:camel_husk"@, true, true),
        spawn_flags_are("minecraft:cat"@, true, true),
        spawn_flags_are("minecraft:cave_spider"@, true, true),
        spawn_flags_are("minecraft:chicken"@, true, true),
        spawn_flags_are("minecraft:cod"@, true, true),
        spawn_flags_are("minecraft:copper_golem"@, true, true),
        spawn_flags_are("minecraft:cow"@, true, true),
        spawn_flags_are("minecraft:creaking"@, true, true),
        spawn_flags_are("minecraft:creeper"@, true, true),
        spawn_flags_are("minecraft:dolphin"@, true, true),
        spawn_flags_are("minecraft:donkey"@, true, true),
        spawn_flags_are("minecraft:drowned"@, true, true),
        spawn_flags_are("minecraft:elder_guardian"@, true, true),
        spawn_flags_are("minecraft:ender_dragon"@, true, true),
        spawn_flags_are("minecraft:enderman"@, true, true),
        spawn_flags_are("minecraft:endermite"@, true, true),
        spawn_flags_are("minecraft:evocation_illager"@, true, true),
        spawn_flags_are("minecraft:fox"@, true, true),
        spawn_flags_are("minecraft:frog"@, true, true),
        spawn_flags_are("minecraft:ghast"@, true, true),
        spawn_flags_are("minecraft:glow_squid"@, true, true),
        spawn_flags_are("minecraft:goat"@, true, true),
        spawn_flags_are("minecraft:guardian"@, true, true),
        spawn_flags_are("minecraft:happy_ghast"@, true, true),
        spawn_flags_are("minecraft:hoglin"@, true, true),
        spawn_flags_are("minecraft:horse"@, true, true),
        spawn_flags_are("minecraft:husk"@, true, true),
        spawn_flags_are("minecraft:iron_golem"@, true, true),
        spawn_flags_are("minecraft:llama"@, true, true),
        spawn_flags_are("minecraft:magma_cube"@, true, true),
        spawn_flags_are("minecraft:mooshroom"@, true, true),
        spawn_flags_are("minecraft:mule"@, true, true),
        spawn_flags_are("minecraft:nautilus"@, true, true),
        spawn_flags_are("minecraft:npc"@, true, true),
        spawn_flags_are("minecraft:ocelot"@, true, true),
        spawn_flags_are("minecraft:panda"@, true, true),
        spawn_flags_are("minecraft:parched"@, true, true),
        spawn_flags_are("minecraft:parrot"@, true, true),
        spawn_flags_are("minecraft:phantom"@, true, true),
        spawn_flags_are("minecraft:pig"@, true, true),
        spawn_flags_are("minecraft:piglin"@, true, true),
        spawn_flags_are("minecraft:piglin_brute"@, true, true),
        spawn_flags_are("minecraft:pillager"@, true, true),
        spawn_flags_are("minecraft:polar_bear"@, true, true),
        spawn_flags_are("minecraft:pufferfish"@, true, true),
        spawn_flags_are("minecraft:rabbit"@, true, true),
        spawn_flags_are("minecraft:ravager"@, true, true),
        spawn_flags_are("minecraft:salmon"@, true, true),
        spawn_flags_are("minecraft:sheep"@, true, true),
        spawn_flags_are("minecraft:shulker"@, true, true),
        spawn_flags_are("minecraft:silverfish"@, true, true),
        spawn_flags_are("minecraft:skeleton"@, true, true),
        spawn_flags_are("minecraft:skeleton_horse"@, true, true),
        spawn_flags_are("minecraft:slime"@, true, true),
        spawn_flags_are("minecraft:sniffer"@, true, true),
        spawn_flags_are("minecraft:snow_golem"@, true, true),
        spawn_flags_are("minecraft:spider"@, true, true),
        spawn_flags_are("minecraft:squid"@, true, true),
        spawn_flags_are("minecraft:stray"@, true, true),
        spawn_flags_are("minecraft:strider"@, true, true),
        spawn_flags_are("minecraft:tadpole"@, true, true),
        spawn_flags_are("minecraft:trader_llama"@, true, true),
        spawn_flags_are("minecraft:tropicalfish"@, true, true),
        spawn_flags_are("minecraft:turtle"@, true, true),
        spawn_flags_are("minecraft:vex"@, true, true),
        spawn_flags_are("minecraft:villager"@, true, true),
        spawn_flags_are("minecraft:vindicator"@, true, true),
        spawn_flags_are("minecraft:wandering_trader"@, true, true),
        spawn_flags_are("minecraft:warden"@, true, true),
        spawn_flags_are("minecraft:witch"@, true, true),
        spawn_flags_are("minecraft:wither"@, true, true),
        spawn_flags_are("minecraft:wither_skeleton"@, true, true),
        spawn_flags_are("minecraft:wolf"@, true, true),
        spawn_flags_are("minecraft:zoglin"@, true, true),
        spawn_flags_are("minecraft:zombie"@, true, true),
        spawn_flags_are("minecraft:zombie_horse"@, true, true),
        spawn_flags_are("minecraft:zombie_nautilus"@, true, true),
        spawn_flags_are("minecraft:zombie_pigman"@, true, true),
        spawn_flags_are("minecraft:zombie_villager"@, true, true),
{
    lemma_spawn_flags_part_0();
    lemma_spawn_flags_part_1();
    lemma_spawn_flags_part_2();
    lemma_spawn_flags_part_3();
    lemma_spawn_flags_part_4();
    lemma_spawn_flags_part_5();
    lemma_spawn_flags_part_6();
    lemma_spawn_flags_part_7();
    lemma_spawn_flags_part_8();
    lemma_spawn_flags_part_9();
    lemma_spawn_flags_part_10();
    lemma_spawn_flags_part_11();
    lemma_spawn_flags_part_12();
    lemma_spawn_flags_part_13();
    lemma_spawn_flags_part_14();
    lemma_spawn_flags_part_15();
}

/// Every registered entity has a collision box, and none carries a sourced
/// runtime ID.
pub proof fn lemma_every_record_has_collision_box(i: int)
    requires
        0 <= i < ENTITY_COUNT,
    ensures
        registry_record(i).height is Some,
        registry_record(i).width is Some,
        registry_record(i).runtime_id is None,
{
}

} // verus!
