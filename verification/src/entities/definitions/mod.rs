//! Generated entity definitions.
pub mod fireworks_rocket;
pub mod fishing_hook;
pub mod fox;
pub mod frog;
pub mod ghast;
pub mod glow_squid;
pub mod goat;
pub mod guardian;
pub mod happy_ghast;
pub mod hoglin;
pub mod hopper_minecart;
pub mod horse;
pub mod husk;
pub mod iron_golem;
pub mod lightning_bolt;
pub mod lingering_potion;
pub mod llama;
pub mod llama_spit;
pub mod magma_cube;
pub mod minecart;
pub mod mooshroom;
pub mod mule;
pub mod nautilus;
pub mod npc;
pub mod ocelot;
pub mod ominous_item_spawner;
pub mod panda;
pub mod parched;
pub mod parrot;
pub mod phantom;
pub mod piglin;
pub mod piglin_brute;
pub mod pillager;
pub mod player;
pub mod polar_bear;
pub mod pufferfish;
pub mod rabbit;
pub mod ravager;
pub mod salmon;
pub mod sheep;
pub mod shulker;
pub mod shulker_bullet;
pub mod silverfish;
pub mod skeleton_horse;
pub mod slime;
pub mod small_fireball;
pub mod sniffer;
pub mod snow_golem;
pub mod snowball;
pub mod spider;
pub mod splash_potion;
pub mod squid;
pub mod strider;
pub mod tadpole;
pub mod thrown_trident;
pub mod tnt;
pub mod tnt_minecart;
pub mod tripod_camera;
pub mod tropicalfish;
pub mod registry;
pub mod registry_data;

pub use registry::{all_entities, get, EntityDefinitionData, ENTITY_COUNT};

use vstd::prelude::*;

use registry::{lemma_lookup_finds_record, lookup};
use fireworks_rocket::FireworksRocket;
use fishing_hook::FishingHook;
use fox::Fox;
use frog::Frog;
use ghast::Ghast;
use glow_squid::GlowSquid;
use goat::Goat;
use guardian::Guardian;
use happy_ghast::HappyGhast;
use hoglin::Hoglin;
use hopper_minecart::HopperMinecart;
use horse::Horse;
use husk::Husk;
use iron_golem::IronGolem;
use lightning_bolt::LightningBolt;
use lingering_potion::LingeringPotion;
use llama::Llama;
use llama_spit::LlamaSpit;
use magma_cube::MagmaCube;
use minecart::Minecart;
use mooshroom::Mooshroom;
use mule::Mule;
use nautilus::Nautilus;
use npc::Npc;
use ocelot::Ocelot;
use ominous_item_spawner::OminousItemSpawner;
use panda::Panda;
use parched::Parched;
use parrot::Parrot;
use phantom::Phantom;
use piglin::Piglin;
use piglin_brute::PiglinBrute;
use pillager::Pillager;
use player::Player;
use polar_bear::PolarBear;
use pufferfish::Pufferfish;
use rabbit::Rabbit;
use ravager::Ravager;
use salmon::Salmon;
use sheep::Sheep;
use shulker::Shulker;
use shulker_bullet::ShulkerBullet;
use silverfish::Silverfish;
use skeleton_horse::SkeletonHorse;
use slime::Slime;
use small_fireball::SmallFireball;
use sniffer::Sniffer;
use snow_golem::SnowGolem;
use snowball::Snowball;
use spider::Spider;
use splash_potion::SplashPotion;
use squid::Squid;
use strider::Strider;
use tadpole::Tadpole;
use thrown_trident::ThrownTrident;
use tnt::Tnt;
use tnt_minecart::TntMinecart;
use tripod_camera::TripodCamera;
use tropicalfish::Tropicalfish;

verus! {

/// An entity definition's identifier is registered, and the registry record
/// carries the definition's spawn flags.
pub open spec fn matches_registry(identifier: Seq<char>, spawnable: bool, summonable: bool) -> bool {
    match lookup(identifier) {
        Some(record) => record.is_spawnable == spawnable && record.is_summonable == summonable,
        None => false,
    }
}

/// Every entity definition is registered under its identifier, and its
/// spawn flags agree with its registry record.
pub proof fn lemma_definitions_match_registry()
    ensures
        matches_registry(FireworksRocket::IDENTIFIER@, FireworksRocket::IS_SPAWNABLE, FireworksRocket::IS_SUMMONABLE),
        matches_registry(FishingHook::IDENTIFIER@, FishingHook::IS_SPAWNABLE, FishingHook::IS_SUMMONABLE),
        matches_registry(Fox::IDENTIFIER@, Fox::IS_SPAWNABLE, Fox::IS_SUMMONABLE),
        matches_registry(Frog::IDENTIFIER@, Frog::IS_SPAWNABLE, Frog::IS_SUMMONABLE),
        matches_registry(Ghast::IDENTIFIER@, Ghast::IS_SPAWNABLE, Ghast::IS_SUMMONABLE),
        matches_registry(GlowSquid::IDENTIFIER@, GlowSquid::IS_SPAWNABLE, GlowSquid::IS_SUMMONABLE),
        matches_registry(Goat::IDENTIFIER@, Goat::IS_SPAWNABLE, Goat::IS_SUMMONABLE),
        matches_registry(Guardian::IDENTIFIER@, Guardian::IS_SPAWNABLE, Guardian::IS_SUMMONABLE),
        matches_registry(HappyGhast::IDENTIFIER@, HappyGhast::IS_SPAWNABLE, HappyGhast::IS_SUMMONABLE),
        matches_registry(Hoglin::IDENTIFIER@, Hoglin::IS_SPAWNABLE, Hoglin::IS_SUMMONABLE),
        matches_registry(HopperMinecart::IDENTIFIER@, HopperMinecart::IS_SPAWNABLE, HopperMinecart::IS_SUMMONABLE),
        matches_registry(Horse::IDENTIFIER@, Horse::IS_SPAWNABLE, Horse::IS_SUMMONABLE),
        matches_registry(Husk::IDENTIFIER@, Husk::IS_SPAWNABLE, Husk::IS_SUMMONABLE),
        matches_registry(IronGolem::IDENTIFIER@, IronGolem::IS_SPAWNABLE, IronGolem::IS_SUMMONABLE),
        matches_registry(LightningBolt::IDENTIFIER@, LightningBolt::IS_SPAWNABLE, LightningBolt::IS_SUMMONABLE),
        matches_registry(LingeringPotion::IDENTIFIER@, LingeringPotion::IS_SPAWNABLE, LingeringPotion::IS_SUMMONABLE),
        matches_registry(Llama::IDENTIFIER@, Llama::IS_SPAWNABLE, Llama::IS_SUMMONABLE),
        matches_registry(LlamaSpit::IDENTIFIER@, LlamaSpit::IS_SPAWNABLE, LlamaSpit::IS_SUMMONABLE),
        matches_registry(MagmaCube::IDENTIFIER@, MagmaCube::IS_SPAWNABLE, MagmaCube::IS_SUMMONABLE),
        matches_registry(Minecart::IDENTIFIER@, Minecart::IS_SPAWNABLE, Minecart::IS_SUMMONABLE),
        matches_registry(Mooshroom::IDENTIFIER@, Mooshroom::IS_SPAWNABLE, Mooshroom::IS_SUMMONABLE),
        matches_registry(Mule::IDENTIFIER@, Mule::IS_SPAWNABLE, Mule::IS_SUMMONABLE),
        matches_registry(Nautilus::IDENTIFIER@, Nautilus::IS_SPAWNABLE, Nautilus::IS_SUMMONABLE),
        matches_registry(Npc::IDENTIFIER@, Npc::IS_SPAWNABLE, Npc::IS_SUMMONABLE),
        matches_registry(Ocelot::IDENTIFIER@, Ocelot::IS_SPAWNABLE, Ocelot::IS_SUMMONABLE),
        matches_registry(OminousItemSpawner::IDENTIFIER@, OminousItemSpawner::IS_SPAWNABLE, OminousItemSpawner::IS_SUMMONABLE),
        matches_registry(Panda::IDENTIFIER@, Panda::IS_SPAWNABLE, Panda::IS_SUMMONABLE),
        matches_registry(Parched::IDENTIFIER@, Parched::IS_SPAWNABLE, Parched::IS_SUMMONABLE),
        matches_registry(Parrot::IDENTIFIER@, Parrot::IS_SPAWNABLE, Parrot::IS_SUMMONABLE),
        matches_registry(Phantom::IDENTIFIER@, Phantom::IS_SPAWNABLE, Phantom::IS_SUMMONABLE),
        matches_registry(Piglin::IDENTIFIER@, Piglin::IS_SPAWNABLE, Piglin::IS_SUMMONABLE),
        matches_registry(PiglinBrute::IDENTIFIER@, PiglinBrute::IS_SPAWNABLE, PiglinBrute::IS_SUMMONABLE),
        matches_registry(Pillager::IDENTIFIER@, Pillager::IS_SPAWNABLE, Pillager::IS_SUMMONABLE),
        matches_registry(Player::IDENTIFIER@, Player::IS_SPAWNABLE, Player::IS_SUMMONABLE),
        matches_registry(PolarBear::IDENTIFIER@, PolarBear::IS_SPAWNABLE, PolarBear::IS_SUMMONABLE),
        matches_registry(Pufferfish::IDENTIFIER@, Pufferfish::IS_SPAWNABLE, Pufferfish::IS_SUMMONABLE),
        matches_registry(Rabbit::IDENTIFIER@, Rabbit::IS_SPAWNABLE, Rabbit::IS_SUMMONABLE),
        matches_registry(Ravager::IDENTIFIER@, Ravager::IS_SPAWNABLE, Ravager::IS_SUMMONABLE),
        matches_registry(Salmon::IDENTIFIER@, Salmon::IS_SPAWNABLE, Salmon::IS_SUMMONABLE),
        matches_registry(Sheep::IDENTIFIER@, Sheep::IS_SPAWNABLE, Sheep::IS_SUMMONABLE),
        matches_registry(Shulker::IDENTIFIER@, Shulker::IS_SPAWNABLE, Shulker::IS_SUMMONABLE),
        matches_registry(ShulkerBullet::IDENTIFIER@, ShulkerBullet::IS_SPAWNABLE, ShulkerBullet::IS_SUMMONABLE),
        matches_registry(Silverfish::IDENTIFIER@, Silverfish::IS_SPAWNABLE, Silverfish::IS_SUMMONABLE),
        matches_registry(SkeletonHorse::IDENTIFIER@, SkeletonHorse::IS_SPAWNABLE, SkeletonHorse::IS_SUMMONABLE),
        matches_registry(Slime::IDENTIFIER@, Slime::IS_SPAWNABLE, Slime::IS_SUMMONABLE),
        matches_registry(SmallFireball::IDENTIFIER@, SmallFireball::IS_SPAWNABLE, SmallFireball::IS_SUMMONABLE),
        matches_registry(Sniffer::IDENTIFIER@, Sniffer::IS_SPAWNABLE, Sniffer::IS_SUMMONABLE),
        matches_registry(SnowGolem::IDENTIFIER@, SnowGolem::IS_SPAWNABLE, SnowGolem::IS_SUMMONABLE),
        matches_registry(Snowball::IDENTIFIER@, Snowball::IS_SPAWNABLE, Snowball::IS_SUMMONABLE),
        matches_registry(Spider::IDENTIFIER@, Spider::IS_SPAWNABLE, Spider::IS_SUMMONABLE),
        matches_registry(SplashPotion::IDENTIFIER@, SplashPotion::IS_SPAWNABLE, SplashPotion::IS_SUMMONABLE),
        matches_registry(Squid::IDENTIFIER@, Squid::IS_SPAWNABLE, Squid::IS_SUMMONABLE),
        matches_registry(Strider::IDENTIFIER@, Strider::IS_SPAWNABLE, Strider::IS_SUMMONABLE),
        matches_registry(Tadpole::IDENTIFIER@, Tadpole::IS_SPAWNABLE, Tadpole::IS_SUMMONABLE),
        matches_registry(ThrownTrident::IDENTIFIER@, ThrownTrident::IS_SPAWNABLE, ThrownTrident::IS_SUMMONABLE),
        matches_registry(Tnt::IDENTIFIER@, Tnt::IS_SPAWNABLE, Tnt::IS_SUMMONABLE),
        matches_registry(TntMinecart::IDENTIFIER@, TntMinecart::IS_SPAWNABLE, TntMinecart::IS_SUMMONABLE),
        matches_registry(TripodCamera::IDENTIFIER@, TripodCamera::IS_SPAWNABLE, TripodCamera::IS_SUMMONABLE),
        matches_registry(Tropicalfish::IDENTIFIER@, Tropicalfish::IS_SPAWNABLE, Tropicalfish::IS_SUMMONABLE),
{
    lemma_lookup_finds_record(40);
    lemma_lookup_finds_record(41);
    lemma_lookup_finds_record(42);
    lemma_lookup_finds_record(43);
    lemma_lookup_finds_record(44);
    lemma_lookup_finds_record(45);
    lemma_lookup_finds_record(46);
    lemma_lookup_finds_record(47);
    lemma_lookup_finds_record(48);
    lemma_lookup_finds_record(49);
    lemma_lookup_finds_record(50);
    lemma_lookup_finds_record(51);
    lemma_lookup_finds_record(52);
    lemma_lookup_finds_record(53);
    lemma_lookup_finds_record(54);
    lemma_lookup_finds_record(55);
    lemma_lookup_finds_record(56);
    lemma_lookup_finds_record(57);
    lemma_lookup_finds_record(58);
    lemma_lookup_finds_record(59);
    lemma_lookup_finds_record(60);
    lemma_lookup_finds_record(61);
    lemma_lookup_finds_record(62);
    lemma_lookup_finds_record(63);
    lemma_lookup_finds_record(64);
    lemma_lookup_finds_record(65);
    lemma_lookup_finds_record(66);
    lemma_lookup_finds_record(67);
    lemma_lookup_finds_record(68);
    lemma_lookup_finds_record(69);
    lemma_lookup_finds_record(71);
    lemma_lookup_finds_record(72);
    lemma_lookup_finds_record(73);
    lemma_lookup_finds_record(74);
    lemma_lookup_finds_record(75);
    lemma_lookup_finds_record(76);
    lemma_lookup_finds_record(77);
    lemma_lookup_finds_record(78);
    lemma_lookup_finds_record(79);
    lemma_lookup_finds_record(80);
    lemma_lookup_finds_record(81);
    lemma_lookup_finds_record(82);
    lemma_lookup_finds_record(83);
    lemma_lookup_finds_record(85);
    lemma_lookup_finds_record(86);
    lemma_lookup_finds_record(87);
    lemma_lookup_finds_record(88);
    lemma_lookup_finds_record(89);
    lemma_lookup_finds_record(90);
    lemma_lookup_finds_record(91);
    lemma_lookup_finds_record(92);
    lemma_lookup_finds_record(93);
    lemma_lookup_finds_record(95);
    lemma_lookup_finds_record(96);
    lemma_lookup_finds_record(97);
    lemma_lookup_finds_record(98);
    lemma_lookup_finds_record(99);
    lemma_lookup_finds_record(101);
    lemma_lookup_finds_record(102);
}

} // verus!
