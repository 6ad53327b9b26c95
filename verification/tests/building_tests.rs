use colony_core::basic_building::{Building, BuildingBehavior, BuildingError, BuildingType};
use colony_core::basic_building::{ResourceGenerator, StorageProvider};
use colony_core::building::{Building as ConfiguredBuilding, BuildingType as BuildingSlot};
use colony_core::building::{BuildingTypeId, Productor, Storage};
use colony_core::config::{
    BuildingConfig, BuildingTime, ProductionInfo, StorageInfo, UpgradeCost,
};
use colony_core::resource::Resource;

fn plain_config(name: &str, max_level: u8) -> BuildingConfig {
    let levels = max_level as usize;
    BuildingConfig {
        name: name.to_string(),
        max_level,
        upgrade_cost: UpgradeCost {
            energy: vec![0; levels],
            minerals: vec![0; levels],
            gas: vec![0; levels],
        },
        building_time: BuildingTime { time: vec![0; levels] },
        production: None,
        storage: None,
    }
}

fn producer_config(name: &str, resource: Resource, rates: Vec<u32>) -> BuildingConfig {
    let mut config = plain_config(name, rates.len() as u8);
    config.production = Some(ProductionInfo { resource, rate_per_level: rates });
    config
}

fn storage_config(name: &str, resource: Resource, capacities: Vec<u32>) -> BuildingConfig {
    let mut config = plain_config(name, capacities.len() as u8);
    config.storage = Some(StorageInfo { resource, capacity_per_level: capacities });
    config
}

#[test]
fn test_building_creation() {
    let building = Building::new(BuildingType::CommandCenter, 1, 5);
    assert_eq!(building.get_type(), BuildingType::CommandCenter);
    assert_eq!(building.get_level(), 1);
}

#[test]
fn test_building_upgrade() {
    let mut building = Building::new(BuildingType::CommandCenter, 1, 5);
    assert_eq!(building.upgrade(), Ok(()));
    assert_eq!(building.get_level(), 2);
}

#[test]
fn test_building_upgrade_max_level() {
    let mut building = Building::new(BuildingType::CommandCenter, 5, 5);
    assert_eq!(
        building.upgrade(),
        Err(BuildingError::MaxLevelReached { current: 5, max: 5 })
    );
}

#[test]
fn basic_building_production_formula() {
    let mine = Building::new(BuildingType::MineralMine, 3, 5);
    assert_eq!(mine.generate_resources(), 30);
    let extractor = Building::new(BuildingType::GasExtractor, 2, 5);
    assert_eq!(extractor.generate_resources(), 16);
    let reactor = Building::new(BuildingType::FusionReactor, 4, 5);
    assert_eq!(reactor.generate_resources(), 60);
    let center = Building::new(BuildingType::CommandCenter, 4, 5);
    assert_eq!(center.generate_resources(), 0);
}

#[test]
fn basic_building_storage_formula() {
    let silo = Building::new(BuildingType::MineralStorage, 2, 5);
    assert_eq!(silo.get_storage_capacity(), 2000);
    let tank = Building::new(BuildingType::GasTank, 3, 5);
    assert_eq!(tank.get_storage_capacity(), 2400);
    let lab = Building::new(BuildingType::ResearchLab, 3, 5);
    assert_eq!(lab.get_storage_capacity(), 0);
}

#[test]
fn producer_rate_follows_config_on_upgrade() {
    let config = producer_config("Mineral Mine", Resource::Minerals, vec![0, 10, 25]);
    let mut mine = Productor::new("Mineral Mine", 0, Resource::Minerals, config);
    assert_eq!(mine.get_production_rate(), 0);
    assert_eq!(mine.upgrade(), Ok(()));
    assert_eq!(mine.get_level(), 1);
    assert_eq!(mine.get_production_rate(), 10);
    assert_eq!(mine.upgrade(), Ok(()));
    assert_eq!(mine.get_production_rate(), 25);
}

#[test]
fn producer_upgrade_to_max_level_reports_config_gap() {
    // The per-level table has no entry for the maximum level itself, so
    // the last upgrade is refused and changes nothing.
    let config = producer_config("Gas Extractor", Resource::Gas, vec![0, 8]);
    let mut extractor = Productor::new("Gas Extractor", 1, Resource::Gas, config);
    assert_eq!(
        extractor.upgrade(),
        Err(colony_core::building::BuildingError::WrongBuildingConfiguration)
    );
    assert_eq!(extractor.get_level(), 1);
    assert_eq!(extractor.get_production_rate(), 8);
}

#[test]
fn producer_upgrade_at_max_level_fails() {
    let config = producer_config("Fusion Reactor", Resource::Energy, vec![0, 15]);
    let mut reactor = Productor::new("Fusion Reactor", 2, Resource::Energy, config);
    assert_eq!(
        reactor.upgrade(),
        Err(colony_core::building::BuildingError::MaxLevelReached { current: 2, max: 2 })
    );
    assert_eq!(reactor.get_level(), 2);
}

#[test]
fn storage_add_resource_clamps_to_capacity() {
    let config = storage_config("Battery Array", Resource::Energy, vec![100, 1000]);
    let mut battery = Storage::new("Battery Array", 0, Resource::Energy, config);
    assert_eq!(battery.get_capacity(), 100);
    assert_eq!(battery.get_current_amount(), 0);
    assert_eq!(battery.add_resource(40), 40);
    assert_eq!(battery.get_current_amount(), 40);
    assert_eq!(battery.add_resource(100), 60);
    assert_eq!(battery.get_current_amount(), 100);
    assert_eq!(battery.add_resource(1), 0);
    assert_eq!(battery.get_current_amount(), 100);
}

#[test]
fn storage_add_resource_huge_request() {
    let config = storage_config("Gas Tank", Resource::Gas, vec![500]);
    let mut tank = Storage::new("Gas Tank", 0, Resource::Gas, config);
    assert_eq!(tank.add_resource(u32::MAX), 500);
    assert_eq!(tank.get_current_amount(), 500);
}

#[test]
fn storage_with_zero_capacity_accepts_nothing() {
    let config = storage_config("Gas Tank", Resource::Gas, vec![0, 800]);
    let mut tank = Storage::new("Gas Tank", 0, Resource::Gas, config);
    assert_eq!(tank.get_capacity(), 0);
    assert_eq!(tank.add_resource(10), 0);
    assert_eq!(tank.get_current_amount(), 0);
}

#[test]
fn storage_upgrade_updates_capacity_and_keeps_amount() {
    let config = storage_config("Mineral Storage", Resource::Minerals, vec![100, 1000, 5000]);
    let mut silo = Storage::new("Mineral Storage", 0, Resource::Minerals, config);
    silo.add_resource(70);
    assert_eq!(silo.upgrade(), Ok(()));
    assert_eq!(silo.get_capacity(), 1000);
    assert_eq!(silo.get_current_amount(), 70);
}

#[test]
fn building_ids_and_names() {
    let ids = BuildingTypeId::all();
    assert_eq!(ids.len(), 9);
    assert_eq!(ids[0].get_name(), "CommandCenter");
    assert_eq!(ids[8].get_name(), "MineralSilo");
    let slot = BuildingSlot::new_zero(
        BuildingTypeId::MineralSilo,
        storage_config("MineralSilo", Resource::Minerals, vec![100]),
    );
    assert_eq!(slot.get_id(), BuildingTypeId::MineralSilo);
    assert_eq!(slot.get_name(), "Mineral Storage");
    assert_eq!(slot.get_level(), 0);
}
