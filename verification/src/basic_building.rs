//! A self-contained building unit with built-in production and storage
//! formulas, independent of the configuration-table driven buildings.

use vstd::prelude::*;

verus! {

#[derive(Debug, PartialEq, Eq, Structural)]
pub enum BuildingError {
    MaxLevelReached { current: u8, max: u8 },
    InsufficientResources { required: u32, available: u32 },
}

#[derive(Debug, Clone, Copy, PartialEq, Eq, Structural)]
pub enum BuildingType {
    CommandCenter,
    FusionReactor,
    GasExtractor,
    MineralMine,
    GasTank,
    MineralStorage,
    OrbitalShipyard,
    ResearchLab,
}

pub struct Building {
    pub building_type: BuildingType,
    pub level: u8,
    pub max_level: u8,
}

pub trait BuildingBehavior {
    spec fn spec_type(&self) -> BuildingType;

    spec fn spec_level(&self) -> u8;

    spec fn spec_max_level(&self) -> u8;

    fn get_type(&self) -> (r: BuildingType)
        ensures
            r == self.spec_type(),
    ;

    fn get_level(&self) -> (r: u8)
        ensures
            r == self.spec_level(),
    ;

    fn upgrade(&mut self) -> (r: Result<(), BuildingError>)
        ensures
            ({
                if old(self).spec_level() < old(self).spec_max_level() {
                    &&& r == Ok::<(), BuildingError>(())
                    &&& final(self).spec_level() == old(self).spec_level() + 1
                } else {
                    &&& r == Err::<(), BuildingError>(
                        BuildingError::MaxLevelReached {
                            current: old(self).spec_level(),
                            max: old(self).spec_max_level(),
                        },
                    )
                    &&& final(self).spec_level() == old(self).spec_level()
                }
            }),
            final(self).spec_type() == old(self).spec_type(),
            final(self).spec_max_level() == old(self).spec_max_level(),
    ;
}

/// The per-turn production of a unit at its current level.
pub open spec fn spec_generated(t: BuildingType, level: u8) -> u32 {
    match t {
        BuildingType::MineralMine => (level * 10) as u32,
        BuildingType::GasExtractor => (level * 8) as u32,
        BuildingType::FusionReactor => (level * 15) as u32,
        _ => 0u32,
    }
}

pub trait ResourceGenerator {
    spec fn spec_production(&self) -> u32;

    fn generate_resources(&self) -> (r: u32)
        ensures
            r == self.spec_production(),
    ;
}

/// The storage capacity of a unit at its current level.
pub open spec fn spec_capacity(t: BuildingType, level: u8) -> u32 {
    match t {
        BuildingType::MineralStorage => (level * 1000) as u32,
        BuildingType::GasTank => (level * 800) as u32,
        _ => 0u32,
    }
}

pub trait StorageProvider {
    spec fn spec_storage_capacity(&self) -> u32;

    fn get_storage_capacity(&self) -> (r: u32)
        ensures
            r == self.spec_storage_capacity(),
    ;
}

impl Building {
    pub fn new(building_type: BuildingType, level: u8, max_level: u8) -> (b: Self)
        ensures
            b.building_type == building_type,
            b.level == level,
            b.max_level == max_level,
    {
        Building { building_type, level, max_level }
    }
}

impl BuildingBehavior for Building {
    open spec fn spec_type(&self) -> BuildingType {
        self.building_type
    }

    open spec fn spec_level(&self) -> u8 {
        self.level
    }

    open spec fn spec_max_level(&self) -> u8 {
        self.max_level
    }

    fn get_type(&self) -> (r: BuildingType) {
        self.building_type
    }

    fn get_level(&self) -> (r: u8) {
        self.level
    }

    fn upgrade(&mut self) -> (r: Result<(), BuildingError>) {
        if self.level < self.max_level {
            self.level = self.level + 1;
            Ok(())
        } else {
            Err(BuildingError::MaxLevelReached { current: self.level, max: self.max_level })
        }
    }
}

impl ResourceGenerator for Building {
    open spec fn spec_production(&self) -> u32 {
        spec_generated(self.building_type, self.level)
    }

    fn generate_resources(&self) -> (r: u32) {
        match self.building_type {
            BuildingType::MineralMine => self.level as u32 * 10,
            BuildingType::GasExtractor => self.level as u32 * 8,
            BuildingType::FusionReactor => self.level as u32 * 15,
            _ => 0,
        }
    }
}

impl StorageProvider for Building {
    open spec fn spec_storage_capacity(&self) -> u32 {
        spec_capacity(self.building_type, self.level)
    }

    fn get_storage_capacity(&self) -> (r: u32) {
        match self.building_type {
            BuildingType::MineralStorage => self.level as u32 * 1000,
            BuildingType::GasTank => self.level as u32 * 800,
            _ => 0,
        }
    }
}

} // verus!
