use colony_core::building::BuildingTypeId;
use colony_core::config::{
    BuildingConfig, BuildingTime, BuildingsConfig, BuildingsConfigError, ProductionInfo,
    StorageInfo, UpgradeCost,
};
use colony_core::planet::{Planet, PlanetError};
use colony_core::player::Player;
use colony_core::resource::Resource;

fn entry(name: &str, max_level: u8) -> (String, BuildingConfig) {
    let levels = max_level as usize;
    (
        name.to_string(),
        BuildingConfig {
            name: name.to_string(),
            max_level,
            upgrade_cost: UpgradeCost {
                energy: vec![0; levels],
                minerals: vec![0; levels],
                gas: vec![0; levels],
            },
            building_time: BuildingTime { time: vec![0; levels] },
            production: None,
            storage: None,
        },
    )
}

/// A table covering every building kind: producers and storages carry
/// the given per-level tables, the plain buildings three empty levels.
fn full_table(
    mine_rates: Vec<u32>,
    silo_caps: Vec<u32>,
) -> BuildingsConfig {
    let mut buildings = Vec::new();
    buildings.push(entry("CommandCenter", 3));
    buildings.push(entry("OrbitalShipyard", 3));
    buildings.push(entry("ResearchLab", 3));
    let mut reactor = entry("FusionReactor", 3);
    reactor.1.production = Some(ProductionInfo {
        resource: Resource::Energy,
        rate_per_level: vec![0, 15, 30],
    });
    buildings.push(reactor);
    let mut extractor = entry("GasExtractor", 3);
    extractor.1.production = Some(ProductionInfo {
        resource: Resource::Gas,
        rate_per_level: vec![0, 8, 16],
    });
    buildings.push(extractor);
    let mut mine = entry("MineralMine", mine_rates.len() as u8);
    mine.1 = BuildingConfig {
        production: Some(ProductionInfo {
            resource: Resource::Minerals,
            rate_per_level: mine_rates.clone(),
        }),
        ..entry("MineralMine", mine_rates.len() as u8).1
    };
    buildings.push(mine);
    let mut battery = entry("BatteryArray", 3);
    battery.1.storage = Some(StorageInfo {
        resource: Resource::Energy,
        capacity_per_level: vec![100, 1000, 10000],
    });
    buildings.push(battery);
    let mut tank = entry("GasTank", 3);
    tank.1.storage = Some(StorageInfo {
        resource: Resource::Gas,
        capacity_per_level: vec![100, 800, 8000],
    });
    buildings.push(tank);
    let mut silo = entry("MineralSilo", silo_caps.len() as u8);
    silo.1 = BuildingConfig {
        storage: Some(StorageInfo {
            resource: Resource::Minerals,
            capacity_per_level: silo_caps.clone(),
        }),
        ..entry("MineralSilo", silo_caps.len() as u8).1
    };
    buildings.push(silo);
    BuildingsConfig { buildings }
}

fn default_table() -> BuildingsConfig {
    full_table(vec![0, 10, 25], vec![100, 1000, 5000])
}

#[test]
fn planet_owns_every_building_at_level_zero() {
    let table = default_table();
    let planet = Planet::new("Alpha", &table).unwrap();
    assert_eq!(planet.get_name(), "Alpha");
    let status = planet.get_status(1);
    assert_eq!(status.planet_name, "Alpha");
    assert_eq!(status.buildings.len(), 9);
    for (_, level) in &status.buildings {
        assert_eq!(*level, 0);
    }
    assert_eq!(status.planet_count, 1);
}

#[test]
fn planet_creation_fails_without_all_buildings() {
    let mut table = default_table();
    table.buildings.remove(1);
    match Planet::new("Alpha", &table) {
        Err(PlanetError::BuildingsConfigError(BuildingsConfigError::BuildingNotFound(m))) => {
            assert_eq!(m, "Building config for OrbitalShipyard not found");
        }
        other => panic!("expected a missing-building error, got {:?}", other),
    }
}

#[test]
fn production_rates_are_zero_without_producers() {
    // Every producer sits at level zero, where the tables prescribe no
    // output: all three rates are reported, all zero.
    let table = default_table();
    let planet = Planet::new("Alpha", &table).unwrap();
    let rates = planet.get_production_rates();
    assert_eq!(rates.get(Resource::Energy), 0);
    assert_eq!(rates.get(Resource::Minerals), 0);
    assert_eq!(rates.get(Resource::Gas), 0);
}

#[test]
fn build_fails_with_insufficient_resources_and_changes_nothing() {
    let mut table = default_table();
    for (name, config) in table.buildings.iter_mut() {
        if name == "ResearchLab" {
            config.upgrade_cost.minerals = vec![50, 0, 0];
        }
    }
    let mut planet = Planet::new("Alpha", &table).unwrap();
    let lab_config = table.buildings.iter().find(|(n, _)| n == "ResearchLab").unwrap().1.clone();
    let before = planet.get_status(1);
    match planet.build(BuildingTypeId::ResearchLab, &lab_config) {
        Err(PlanetError::InsufficientResources) => {}
        other => panic!("expected insufficient resources, got {:?}", other),
    }
    let after = planet.get_status(1);
    assert_eq!(before.buildings, after.buildings);
    assert_eq!(before.storage, after.storage);
    assert_eq!(before.production, after.production);
}

#[test]
fn build_succeeds_when_affordable() {
    let table = default_table();
    let mut planet = Planet::new("Alpha", &table).unwrap();
    let mine_config = table.buildings.iter().find(|(n, _)| n == "MineralMine").unwrap().1.clone();
    assert_eq!(planet.build(BuildingTypeId::MineralMine, &mine_config), Ok(()));
    let rates = planet.get_production_rates();
    assert_eq!(rates.get(Resource::Minerals), 10);
}

#[test]
fn build_at_max_level_reports_max_level_error() {
    let mut table = default_table();
    for (name, config) in table.buildings.iter_mut() {
        if name == "CommandCenter" {
            config.max_level = 0;
            config.upgrade_cost.energy = vec![];
            config.upgrade_cost.minerals = vec![];
            config.upgrade_cost.gas = vec![];
            config.building_time.time = vec![];
        }
    }
    let mut planet = Planet::new("Alpha", &table).unwrap();
    let cc_config = table.buildings.iter().find(|(n, _)| n == "CommandCenter").unwrap().1.clone();
    match planet.build(BuildingTypeId::CommandCenter, &cc_config) {
        Err(PlanetError::BuildingError(
            colony_core::building::BuildingError::MaxLevelReached { current: 0, max: 0 },
        )) => {}
        other => panic!("expected the max-level error, got {:?}", other),
    }
}

#[test]
fn generation_clamps_at_capacity_over_many_turns() {
    // A mine at level one producing ten per turn, a silo at level one
    // holding a thousand: one turn stores ten, one hundred one turns
    // store the capacity.
    let table = default_table();
    let mut player = Player::new("Player 1", "Alpha", &table);
    let mine_config = table.buildings.iter().find(|(n, _)| n == "MineralMine").unwrap().1.clone();
    let silo_config = table.buildings.iter().find(|(n, _)| n == "MineralSilo").unwrap().1.clone();
    {
        let planet = player.get_mut_planet("Alpha").unwrap();
        assert_eq!(planet.build(BuildingTypeId::MineralMine, &mine_config), Ok(()));
        assert_eq!(planet.build(BuildingTypeId::MineralSilo, &silo_config), Ok(()));
        assert_eq!(planet.get_resource_capacity(Resource::Minerals), 1000);
        assert_eq!(planet.get_resource_amount(Resource::Minerals), 0);
    }
    assert_eq!(player.process_turn_end(), Ok(()));
    assert_eq!(
        player.get_planet("Alpha").unwrap().get_resource_amount(Resource::Minerals),
        10
    );
    for _ in 0..100 {
        assert_eq!(player.process_turn_end(), Ok(()));
    }
    assert_eq!(
        player.get_planet("Alpha").unwrap().get_resource_amount(Resource::Minerals),
        1000
    );
}

#[test]
fn validate_accepts_matching_tables() {
    let table = default_table();
    assert_eq!(table.validate(), Ok(()));
    assert!(colony_core::planet::covers_all_buildings(&table));
    let mut short = default_table();
    short.buildings.pop();
    assert!(!colony_core::planet::covers_all_buildings(&short));
}

#[test]
fn validate_rejects_wrong_energy_cost_length() {
    let mut table = default_table();
    table.buildings[0].1.upgrade_cost.energy = vec![0, 0];
    match table.validate() {
        Err(BuildingsConfigError::EnergyCostMismatch(m)) => assert_eq!(m, "2"),
        other => panic!("expected an energy cost mismatch, got {:?}", other),
    }
}

#[test]
fn validate_rejects_wrong_minerals_cost_length() {
    let mut table = default_table();
    table.buildings[2].1.upgrade_cost.minerals = vec![0; 7];
    match table.validate() {
        Err(BuildingsConfigError::MineralsCostMismatch(m)) => assert_eq!(m, "7"),
        other => panic!("expected a minerals cost mismatch, got {:?}", other),
    }
}

#[test]
fn validate_allows_empty_gas_costs_but_not_short_ones() {
    let mut table = default_table();
    table.buildings[0].1.upgrade_cost.gas = vec![];
    assert_eq!(table.validate(), Ok(()));
    table.buildings[0].1.upgrade_cost.gas = vec![0];
    match table.validate() {
        Err(BuildingsConfigError::GasCostMismatch(m)) => assert_eq!(m, "1"),
        other => panic!("expected a gas cost mismatch, got {:?}", other),
    }
}

#[test]
fn validate_rejects_wrong_production_storage_and_time_lengths() {
    let mut table = default_table();
    if let Some(p) = table.buildings[3].1.production.as_mut() {
        p.rate_per_level = vec![0];
    }
    match table.validate() {
        Err(BuildingsConfigError::ProductionRateMismatch(m)) => assert_eq!(m, "1"),
        other => panic!("expected a production rate mismatch, got {:?}", other),
    }

    let mut table = default_table();
    if let Some(s) = table.buildings[6].1.storage.as_mut() {
        s.capacity_per_level = vec![0, 0, 0, 0];
    }
    match table.validate() {
        Err(BuildingsConfigError::StorageCapacityMismatch(m)) => assert_eq!(m, "4"),
        other => panic!("expected a storage capacity mismatch, got {:?}", other),
    }

    let mut table = default_table();
    table.buildings[1].1.building_time.time = vec![0, 0];
    match table.validate() {
        Err(BuildingsConfigError::BuildingTimeMismatch(m)) => assert_eq!(m, "2"),
        other => panic!("expected a building time mismatch, got {:?}", other),
    }
}

#[test]
fn player_tracks_its_planets() {
    let table = default_table();
    let player = Player::new("Player 1", "Alpha", &table);
    assert_eq!(player.get_name(), "Player 1");
    assert_eq!(player.get_planets_count(), 1);
    assert_eq!(player.get_planet_names(), vec!["Alpha".to_string()]);
    assert!(player.get_planet("Alpha").is_some());
    assert!(player.get_planet("Beta").is_none());
}
