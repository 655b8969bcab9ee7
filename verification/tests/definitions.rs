use unastar_data::entities::definitions::{all_entities, get, EntityDefinitionData, ENTITY_COUNT};
use unastar_data::entities::definitions::fireworks_rocket::FireworksRocket;
use unastar_data::entities::definitions::fishing_hook::FishingHook;
use unastar_data::entities::definitions::fox::Fox;
use unastar_data::entities::definitions::frog::Frog;
use unastar_data::entities::definitions::ghast::Ghast;
use unastar_data::entities::definitions::glow_squid::GlowSquid;
use unastar_data::entities::definitions::goat::Goat;
use unastar_data::entities::definitions::guardian::Guardian;
use unastar_data::entities::definitions::happy_ghast::HappyGhast;
use unastar_data::entities::definitions::hoglin::Hoglin;
use unastar_data::entities::definitions::hopper_minecart::HopperMinecart;
use unastar_data::entities::definitions::horse::Horse;
use unastar_data::entities::definitions::husk::Husk;
use unastar_data::entities::definitions::iron_golem::IronGolem;
use unastar_data::entities::definitions::lightning_bolt::LightningBolt;
use unastar_data::entities::definitions::lingering_potion::LingeringPotion;
use unastar_data::entities::definitions::llama::Llama;
use unastar_data::entities::definitions::llama_spit::LlamaSpit;
use unastar_data::entities::definitions::magma_cube::MagmaCube;
use unastar_data::entities::definitions::minecart::Minecart;
use unastar_data::entities::definitions::mooshroom::Mooshroom;
use unastar_data::entities::definitions::mule::Mule;
use unastar_data::entities::definitions::nautilus::Nautilus;
use unastar_data::entities::definitions::npc::Npc;
use unastar_data::entities::definitions::ocelot::Ocelot;
use unastar_data::entities::definitions::ominous_item_spawner::OminousItemSpawner;
use unastar_data::entities::definitions::panda::Panda;
use unastar_data::entities::definitions::parched::Parched;
use unastar_data::entities::definitions::parrot::Parrot;
use unastar_data::entities::definitions::phantom::Phantom;
use unastar_data::entities::definitions::piglin::Piglin;
use unastar_data::entities::definitions::piglin_brute::PiglinBrute;
use unastar_data::entities::definitions::pillager::Pillager;
use unastar_data::entities::definitions::player::Player;
use unastar_data::entities::definitions::polar_bear::PolarBear;
use unastar_data::entities::definitions::pufferfish::Pufferfish;
use unastar_data::entities::definitions::rabbit::Rabbit;
use unastar_data::entities::definitions::ravager::Ravager;
use unastar_data::entities::definitions::salmon::Salmon;
use unastar_data::entities::definitions::sheep::Sheep;
use unastar_data::entities::definitions::shulker::Shulker;
use unastar_data::entities::definitions::shulker_bullet::ShulkerBullet;
use unastar_data::entities::definitions::silverfish::Silverfish;
use unastar_data::entities::definitions::skeleton_horse::SkeletonHorse;
use unastar_data::entities::definitions::slime::Slime;
use unastar_data::entities::definitions::small_fireball::SmallFireball;
use unastar_data::entities::definitions::sniffer::Sniffer;
use unastar_data::entities::definitions::snow_golem::SnowGolem;
use unastar_data::entities::definitions::snowball::Snowball;
use unastar_data::entities::definitions::spider::Spider;
use unastar_data::entities::definitions::splash_potion::SplashPotion;
use unastar_data::entities::definitions::squid::Squid;
use unastar_data::entities::definitions::strider::Strider;
use unastar_data::entities::definitions::tadpole::Tadpole;
use unastar_data::entities::definitions::thrown_trident::ThrownTrident;
use unastar_data::entities::definitions::tnt::Tnt;
use unastar_data::entities::definitions::tnt_minecart::TntMinecart;
use unastar_data::entities::definitions::tripod_camera::TripodCamera;
use unastar_data::entities::definitions::tropicalfish::Tropicalfish;

#[test]
fn every_definition_matches_its_registry_record() {
    let definitions: Vec<(&str, bool, bool)> = vec![
        (FireworksRocket::IDENTIFIER, FireworksRocket::IS_SPAWNABLE, FireworksRocket::IS_SUMMONABLE),
        (FishingHook::IDENTIFIER, FishingHook::IS_SPAWNABLE, FishingHook::IS_SUMMONABLE),
        (Fox::IDENTIFIER, Fox::IS_SPAWNABLE, Fox::IS_SUMMONABLE),
        (Frog::IDENTIFIER, Frog::IS_SPAWNABLE, Frog::IS_SUMMONABLE),
        (Ghast::IDENTIFIER, Ghast::IS_SPAWNABLE, Ghast::IS_SUMMONABLE),
        (GlowSquid::IDENTIFIER, GlowSquid::IS_SPAWNABLE, GlowSquid::IS_SUMMONABLE),
        (Goat::IDENTIFIER, Goat::IS_SPAWNABLE, Goat::IS_SUMMONABLE),
        (Guardian::IDENTIFIER, Guardian::IS_SPAWNABLE, Guardian::IS_SUMMONABLE),
        (HappyGhast::IDENTIFIER, HappyGhast::IS_SPAWNABLE, HappyGhast::IS_SUMMONABLE),
        (Hoglin::IDENTIFIER, Hoglin::IS_SPAWNABLE, Hoglin::IS_SUMMONABLE),
        (HopperMinecart::IDENTIFIER, HopperMinecart::IS_SPAWNABLE, HopperMinecart::IS_SUMMONABLE),
        (Horse::IDENTIFIER, Horse::IS_SPAWNABLE, Horse::IS_SUMMONABLE),
        (Husk::IDENTIFIER, Husk::IS_SPAWNABLE, Husk::IS_SUMMONABLE),
        (IronGolem::IDENTIFIER, IronGolem::IS_SPAWNABLE, IronGolem::IS_SUMMONABLE),
        (LightningBolt::IDENTIFIER, LightningBolt::IS_SPAWNABLE, LightningBolt::IS_SUMMONABLE),
        (LingeringPotion::IDENTIFIER, LingeringPotion::IS_SPAWNABLE, LingeringPotion::IS_SUMMONABLE),
        (Llama::IDENTIFIER, Llama::IS_SPAWNABLE, Llama::IS_SUMMONABLE),
        (LlamaSpit::IDENTIFIER, LlamaSpit::IS_SPAWNABLE, LlamaSpit::IS_SUMMONABLE),
        (MagmaCube::IDENTIFIER, MagmaCube::IS_SPAWNABLE, MagmaCube::IS_SUMMONABLE),
        (Minecart::IDENTIFIER, Minecart::IS_SPAWNABLE, Minecart::IS_SUMMONABLE),
        (Mooshroom::IDENTIFIER, Mooshroom::IS_SPAWNABLE, Mooshroom::IS_SUMMONABLE),
        (Mule::IDENTIFIER, Mule::IS_SPAWNABLE, Mule::IS_SUMMONABLE),
        (Nautilus::IDENTIFIER, Nautilus::IS_SPAWNABLE, Nautilus::IS_SUMMONABLE),
        (Npc::IDENTIFIER, Npc::IS_SPAWNABLE, Npc::IS_SUMMONABLE),
        (Ocelot::IDENTIFIER, Ocelot::IS_SPAWNABLE, Ocelot::IS_SUMMONABLE),
        (OminousItemSpawner::IDENTIFIER, OminousItemSpawner::IS_SPAWNABLE, OminousItemSpawner::IS_SUMMONABLE),
        (Panda::IDENTIFIER, Panda::IS_SPAWNABLE, Panda::IS_SUMMONABLE),
        (Parched::IDENTIFIER, Parched::IS_SPAWNABLE, Parched::IS_SUMMONABLE),
        (Parrot::IDENTIFIER, Parrot::IS_SPAWNABLE, Parrot::IS_SUMMONABLE),
        (Phantom::IDENTIFIER, Phantom::IS_SPAWNABLE, Phantom::IS_SUMMONABLE),
        (Piglin::IDENTIFIER, Piglin::IS_SPAWNABLE, Piglin::IS_SUMMONABLE),
        (PiglinBrute::IDENTIFIER, PiglinBrute::IS_SPAWNABLE, PiglinBrute::IS_SUMMONABLE),
        (Pillager::IDENTIFIER, Pillager::IS_SPAWNABLE, Pillager::IS_SUMMONABLE),
        (Player::IDENTIFIER, Player::IS_SPAWNABLE, Player::IS_SUMMONABLE),
        (PolarBear::IDENTIFIER, PolarBear::IS_SPAWNABLE, PolarBear::IS_SUMMONABLE),
        (Pufferfish::IDENTIFIER, Pufferfish::IS_SPAWNABLE, Pufferfish::IS_SUMMONABLE),
        (Rabbit::IDENTIFIER, Rabbit::IS_SPAWNABLE, Rabbit::IS_SUMMONABLE),
        (Ravager::IDENTIFIER, Ravager::IS_SPAWNABLE, Ravager::IS_SUMMONABLE),
        (Salmon::IDENTIFIER, Salmon::IS_SPAWNABLE, Salmon::IS_SUMMONABLE),
        (Sheep::IDENTIFIER, Sheep::IS_SPAWNABLE, Sheep::IS_SUMMONABLE),
        (Shulker::IDENTIFIER, Shulker::IS_SPAWNABLE, Shulker::IS_SUMMONABLE),
        (ShulkerBullet::IDENTIFIER, ShulkerBullet::IS_SPAWNABLE, ShulkerBullet::IS_SUMMONABLE),
        (Silverfish::IDENTIFIER, Silverfish::IS_SPAWNABLE, Silverfish::IS_SUMMONABLE),
        (SkeletonHorse::IDENTIFIER, SkeletonHorse::IS_SPAWNABLE, SkeletonHorse::IS_SUMMONABLE),
        (Slime::IDENTIFIER, Slime::IS_SPAWNABLE, Slime::IS_SUMMONABLE),
        (SmallFireball::IDENTIFIER, SmallFireball::IS_SPAWNABLE, SmallFireball::IS_SUMMONABLE),
        (Sniffer::IDENTIFIER, Sniffer::IS_SPAWNABLE, Sniffer::IS_SUMMONABLE),
        (SnowGolem::IDENTIFIER, SnowGolem::IS_SPAWNABLE, SnowGolem::IS_SUMMONABLE),
        (Snowball::IDENTIFIER, Snowball::IS_SPAWNABLE, Snowball::IS_SUMMONABLE),
        (Spider::IDENTIFIER, Spider::IS_SPAWNABLE, Spider::IS_SUMMONABLE),
        (SplashPotion::IDENTIFIER, SplashPotion::IS_SPAWNABLE, SplashPotion::IS_SUMMONABLE),
        (Squid::IDENTIFIER, Squid::IS_SPAWNABLE, Squid::IS_SUMMONABLE),
        (Strider::IDENTIFIER, Strider::IS_SPAWNABLE, Strider::IS_SUMMONABLE),
        (Tadpole::IDENTIFIER, Tadpole::IS_SPAWNABLE, Tadpole::IS_SUMMONABLE),
        (ThrownTrident::IDENTIFIER, ThrownTrident::IS_SPAWNABLE, ThrownTrident::IS_SUMMONABLE),
        (Tnt::IDENTIFIER, Tnt::IS_SPAWNABLE, Tnt::IS_SUMMONABLE),
        (TntMinecart::IDENTIFIER, TntMinecart::IS_SPAWNABLE, TntMinecart::IS_SUMMONABLE),
        (TripodCamera::IDENTIFIER, TripodCamera::IS_SPAWNABLE, TripodCamera::IS_SUMMONABLE),
        (Tropicalfish::IDENTIFIER, Tropicalfish::IS_SPAWNABLE, Tropicalfish::IS_SUMMONABLE),
    ];
    assert_eq!(definitions.len(), 59);
    for (identifier, spawnable, summonable) in definitions {
        let record = get(identifier).expect("definition is registered");
        assert_eq!(record.identifier, identifier);
        assert_eq!(record.is_spawnable, spawnable);
        assert_eq!(record.is_summonable, summonable);
    }
}
