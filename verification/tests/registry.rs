use unastar_data::entities::definitions::fox::{Fox, FoxEvent};
use unastar_data::entities::definitions::tnt::{Tnt, TntComponentGroup, TntEvent};
use unastar_data::entities::definitions::{all_entities, get, EntityDefinitionData, ENTITY_COUNT};

#[test]
fn get_finds_fox() {
    let fox = get("minecraft:fox").expect("fox is registered");
    assert_eq!(
        fox,
        EntityDefinitionData {
            id: 42,
            identifier: "minecraft:fox",
            spawn_category: Some("creature"),
            is_spawnable: true,
            is_summonable: true,
            runtime_id: None,
            height: Some(7000),
            width: Some(6000),
        }
    );
}

#[test]
fn get_finds_first_and_last_records() {
    let allay = get("minecraft:allay").expect("allay is registered");
    assert_eq!(allay.id, 0);
    assert_eq!(allay.height, Some(6000));
    assert_eq!(allay.width, Some(3500));
    let last = get("minecraft:zombie_villager_v2").expect("zombie villager v2 is registered");
    assert_eq!(last.id, 125);
    assert_eq!(last.spawn_category, None);
    assert!(last.is_spawnable);
    assert!(!last.is_summonable);
}

#[test]
fn get_distinguishes_prefixes() {
    assert_eq!(get("minecraft:zombie_villager").unwrap().id, 124);
    assert_eq!(get("minecraft:wither_skull").unwrap().id, 114);
    assert_eq!(get("minecraft:wither_skull_dangerous").unwrap().id, 115);
    assert_eq!(get("minecraft:zombie_villager_v").map(|e| e.id), None);
}

#[test]
fn get_rejects_unknown_identifiers() {
    assert_eq!(get(""), None);
    assert_eq!(get("fox"), None);
    assert_eq!(get("minecraft:"), None);
    assert_eq!(get("minecraft:fox "), None);
    assert_eq!(get("Minecraft:fox"), None);
    assert_eq!(get("minecraft:unicorn"), None);
}

#[test]
fn registry_ids_follow_order() {
    let entities = all_entities();
    assert_eq!(entities.len(), ENTITY_COUNT);
    assert_eq!(ENTITY_COUNT, 126);
    for (index, entity) in entities.iter().enumerate() {
        assert_eq!(entity.id as usize, index);
    }
}

#[test]
fn registry_is_sorted_and_namespaced() {
    let entities = all_entities();
    for pair in entities.windows(2) {
        assert!(pair[0].identifier < pair[1].identifier);
    }
    for entity in &entities {
        assert!(entity.identifier.starts_with("minecraft:"));
        assert!(entity.identifier.len() > "minecraft:".len());
    }
}

#[test]
fn get_gives_back_every_record() {
    for entity in all_entities() {
        assert_eq!(get(entity.identifier), Some(entity));
    }
}

#[test]
fn dimensions_are_exact_in_ten_thousandths() {
    let armor_stand = get("minecraft:armor_stand").unwrap();
    assert_eq!(armor_stand.height, Some(19750));
    assert_eq!(armor_stand.height.unwrap() as f32 / 10000.0, 1.975f32);
    let wind_charge = get("minecraft:breeze_wind_charge_projectile").unwrap();
    assert_eq!(wind_charge.width, Some(3125));
    assert_eq!(wind_charge.width.unwrap() as f32 / 10000.0, 0.3125f32);
    let dragon = get("minecraft:ender_dragon").unwrap();
    assert_eq!(dragon.width.unwrap() as f32 / 10000.0, 13.0f32);
}

#[test]
fn entity_constants_and_enums() {
    assert_eq!(Fox::IDENTIFIER, "minecraft:fox");
    assert!(Fox::IS_SPAWNABLE);
    assert_eq!(Tnt::IDENTIFIER, "minecraft:tnt");
    assert!(!Tnt::IS_SPAWNABLE);
    assert!(Tnt::IS_SUMMONABLE);
    assert_eq!(TntComponentGroup::FromExplosion, TntComponentGroup::FromExplosion);
    assert_eq!(TntEvent::FromExplosion, TntEvent::FromExplosion);
    assert_ne!(FoxEvent::AgeableGrowUp, FoxEvent::EntityBorn);
    let tnt = get(Tnt::IDENTIFIER).unwrap();
    assert_eq!(tnt.is_spawnable, Tnt::IS_SPAWNABLE);
    assert_eq!(tnt.is_summonable, Tnt::IS_SUMMONABLE);
}
