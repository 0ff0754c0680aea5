use std::collections::HashMap;

use slime_server::config::{
    PlantBonusesConfig, PlantsConfig, SeedConfig, TownUpgraderConfig, UpgradeSlotConfig, UpgraderConfig,
};

fn seed(name: &str, chance: u8) -> SeedConfig {
    SeedConfig { name: name.to_string(), stages: [1, 2, 3, 4, 5, 6], fruits: [10, 11, 0, 0, 0], chance }
}

fn plants() -> PlantsConfig {
    PlantsConfig {
        bonuses: PlantBonusesConfig { fairy_chance_bonus: 5, max_fairies: 3 },
        seeds: vec![("712".to_string(), seed("Apple", 40)), ("713".to_string(), seed("Pear", 25))],
    }
}

#[test]
fn test_get_seed_by_item_id() {
    let p = plants();
    assert_eq!(p.get_seed(712).map(|s| s.name.clone()), Some("Apple".to_string()));
    assert_eq!(p.get_seed(713).map(|s| s.chance), Some(25));
    assert!(p.get_seed(714).is_none());
}

#[test]
fn test_get_seed_ignores_prefixed_keys() {
    let p = PlantsConfig {
        bonuses: PlantBonusesConfig { fairy_chance_bonus: 0, max_fairies: 0 },
        seeds: vec![("seeds.712".to_string(), seed("Apple", 40))],
    };
    assert!(p.get_seed(712).is_none());
}

fn upgrade(category: &str, slot: u8, name: &str) -> UpgradeSlotConfig {
    UpgradeSlotConfig {
        category: category.to_string(),
        slot,
        name: name.to_string(),
        need: 100,
        unlocked: true,
        option: 0,
        other1: 0,
        other2: 0,
        other3: 0,
        other4: 0,
        other5: 0,
        warp_slot: 0,
        warp_category: 0,
        unlock_chain: Vec::new(),
    }
}

fn upgrader() -> UpgraderConfig {
    let town = TownUpgraderConfig {
        town_id: 40,
        warp_center_room: 41,
        upgrades: vec![
            upgrade("shop", 1, "first"),
            upgrade("warp", 1, "gate"),
            upgrade("shop", 2, "second"),
            upgrade("shop", 1, "first again"),
        ],
    };
    let mut towns = HashMap::new();
    towns.insert(40, town);
    UpgraderConfig { towns }
}

#[test]
fn test_category_upgrades_each_slot_once() {
    let cfg = upgrader();
    let shop = cfg.get_category_upgrades(40, "shop");
    let mut names: Vec<String> = shop.iter().map(|u| u.name.clone()).collect();
    names.sort();
    assert_eq!(names, vec!["first again".to_string(), "second".to_string()]);
    for u in &shop {
        assert_eq!(u.category, "shop");
        assert_eq!(cfg.get_upgrade(40, "shop", u.slot).map(|v| v.name.clone()), Some(u.name.clone()));
    }
    assert_eq!(cfg.get_category_upgrades(40, "warp").len(), 1);
    assert!(cfg.get_category_upgrades(40, "bank").is_empty());
    assert!(cfg.get_category_upgrades(99, "shop").is_empty());
}
