//! A planet: one building of every kind, production aggregation,
//! affordability checking and the upgrade entry point.

use vstd::prelude::*;
use vstd::string::StringExecFns;

use crate::building::{
    producer_building_id, spec_added, spec_all_ids, spec_display_name, spec_producer_id,
    spec_slot_of, spec_storage_id, spec_type_key, storage_building_id, Building, BuildingError,
    BuildingType, BuildingTypeId, Storage,
};
use crate::config::{
    config_eq, spec_config_of, spec_has_config, BuildingConfig, BuildingsConfig,
    BuildingsConfigError,
};
use crate::resource::Resource;
use crate::text::{spec_decimal, u64_to_string};

verus! {

#[derive(Debug, Clone, PartialEq, Eq)]
pub enum PlanetError {
    BuildingNotBuilt,
    InsufficientResources,
    IncorrectBuildingType,
    BuildingError(BuildingError),
    BuildingsConfigError(BuildingsConfigError),
}

/// Per-resource production rates; every resource is always present,
/// zero by default.
#[derive(Debug, Clone, Copy, PartialEq, Eq, Default)]
pub struct ResourceRates {
    pub energy: u32,
    pub minerals: u32,
    pub gas: u32,
}

impl ResourceRates {
    pub open spec fn spec_get(&self, r: Resource) -> u32 {
        match r {
            Resource::Energy => self.energy,
            Resource::Minerals => self.minerals,
            Resource::Gas => self.gas,
        }
    }

    pub fn get(&self, r: Resource) -> (v: u32)
        ensures
            v == self.spec_get(r),
    {
        match r {
            Resource::Energy => self.energy,
            Resource::Minerals => self.minerals,
            Resource::Gas => self.gas,
        }
    }
}

/// Per-resource storage snapshot: stored amount and capacity.
#[derive(Debug, Clone, Copy, PartialEq, Eq, Default)]
pub struct StorageLevels {
    pub energy: (u32, u32),
    pub minerals: (u32, u32),
    pub gas: (u32, u32),
}

impl StorageLevels {
    pub open spec fn spec_get(&self, r: Resource) -> (u32, u32) {
        match r {
            Resource::Energy => self.energy,
            Resource::Minerals => self.minerals,
            Resource::Gas => self.gas,
        }
    }

    pub fn get(&self, r: Resource) -> (v: (u32, u32))
        ensures
            v == self.spec_get(r),
    {
        match r {
            Resource::Energy => self.energy,
            Resource::Minerals => self.minerals,
            Resource::Gas => self.gas,
        }
    }
}

/// A read-only snapshot of a planet for display.
#[derive(Debug, Clone, Default)]
pub struct PlanetStatus {
    pub planet_name: String,
    pub buildings: Vec<(String, u8)>,
    pub production: ResourceRates,
    pub storage: StorageLevels,
    pub planet_count: usize,
}

#[derive(Debug, Clone)]
pub struct Planet {
    pub name: String,
    pub buildings: Vec<BuildingType>,
}

/// A storage after one generation step at the given rate: nothing moves
/// at rate zero, otherwise the rate is added, clamped to the capacity.
pub open spec fn spec_filled(s: Storage, rate: u32) -> Storage {
    if rate > 0 {
        (Storage {
            current_amount: spec_added(s.current_amount as int, rate as int, s.capacity as int)
                as u32,
            ..s
        })
    } else {
        s
    }
}

/// One building slot after a planet-wide generation step: storages take
/// their bound resource's production, everything else is untouched.
pub open spec fn spec_generated_slot(p: Planet, i: int) -> BuildingType {
    let b = p.buildings@[i];
    match b {
        BuildingType::BatteryArray(s) => BuildingType::BatteryArray(
            spec_filled(s, p.spec_production_of(Resource::Energy)),
        ),
        BuildingType::GasTank(s) => BuildingType::GasTank(
            spec_filled(s, p.spec_production_of(Resource::Gas)),
        ),
        BuildingType::MineralSilo(s) => BuildingType::MineralSilo(
            spec_filled(s, p.spec_production_of(Resource::Minerals)),
        ),
        _ => b,
    }
}

/// A freshly created building slot: level zero, display name, empty
/// store, configured from the table entry under its kind's key.
pub open spec fn fresh_slot(
    b: BuildingType,
    id: BuildingTypeId,
    table: Seq<(String, BuildingConfig)>,
) -> bool {
    &&& b.spec_id() == id
    &&& b.wf()
    &&& b.spec_level() == 0
    &&& b.spec_name() == spec_display_name(id)
    &&& (b.spec_storage() matches Some(s) ==> s.current_amount == 0)
    &&& config_eq(b.spec_config(), spec_config_of(table, spec_type_key(id)))
}

/// The first building kind whose configuration the table lacks, as a
/// position in the fixed enumeration order; nine when none is missing.
pub open spec fn spec_first_missing(table: Seq<(String, BuildingConfig)>) -> int {
    if !spec_has_config(table, spec_type_key(BuildingTypeId::CommandCenter)) {
        0
    } else if !spec_has_config(table, spec_type_key(BuildingTypeId::OrbitalShipyard)) {
        1
    } else if !spec_has_config(table, spec_type_key(BuildingTypeId::ResearchLab)) {
        2
    } else if !spec_has_config(table, spec_type_key(BuildingTypeId::FusionReactor)) {
        3
    } else if !spec_has_config(table, spec_type_key(BuildingTypeId::GasExtractor)) {
        4
    } else if !spec_has_config(table, spec_type_key(BuildingTypeId::MineralMine)) {
        5
    } else if !spec_has_config(table, spec_type_key(BuildingTypeId::BatteryArray)) {
        6
    } else if !spec_has_config(table, spec_type_key(BuildingTypeId::GasTank)) {
        7
    } else if !spec_has_config(table, spec_type_key(BuildingTypeId::MineralSilo)) {
        8
    } else {
        9
    }
}

/// Whether the table holds a configuration for every building kind —
/// what planet creation needs to succeed.
pub fn covers_all_buildings(buildings_config: &BuildingsConfig) -> (r: bool)
    ensures
        r == (spec_first_missing(buildings_config.buildings@) == 9),
{
    let ids = BuildingTypeId::all();
    let mut i: usize = 0;
    while i < 9
        invariant
            ids@ == spec_all_ids(),
            i <= 9,
            forall|j: int|
                0 <= j < i ==> spec_has_config(
                    buildings_config.buildings@,
                    spec_type_key(spec_all_ids()[j]),
                ),
        decreases 9 - i,
    {
        if buildings_config.get(ids[i].get_name()).is_none() {
            return false;
        }
        i = i + 1;
    }
    true
}

impl Planet {
    /// Completeness: one well-formed building of every kind, in the
    /// fixed slot order.
    pub open spec fn wf(&self) -> bool {
        &&& self.buildings@.len() == 9
        &&& forall|i: int|
            0 <= i < 9 ==> (#[trigger] self.buildings@[i]).spec_id() == spec_all_ids()[i]
                && self.buildings@[i].wf()
    }

    /// The building in the slot of the given kind.
    pub open spec fn spec_building(&self, id: BuildingTypeId) -> BuildingType {
        self.buildings@[spec_slot_of(id)]
    }

    /// The storage bound to a resource.
    pub open spec fn spec_storage(&self, r: Resource) -> Storage {
        self.spec_building(spec_storage_id(r)).spec_storage().unwrap()
    }

    /// The production rate for a resource: what its bound producer
    /// currently yields per turn.
    pub open spec fn spec_production_of(&self, r: Resource) -> u32 {
        self.spec_building(spec_producer_id(r)).spec_productor().unwrap().production_rate
    }

    /// Creates a planet with every building at level zero, configured
    /// from the table; fails if the table lacks any building's entry.
    pub fn new(name: &str, buildings_config: &BuildingsConfig) -> (r: Result<Self, PlanetError>)
        ensures
            ({
                let table = buildings_config.buildings@;
                if spec_first_missing(table) == 9 {
                    r matches Ok(p) && p.wf() && p.name@ == name@ && forall|i: int|
                        0 <= i < 9 ==> fresh_slot(#[trigger] p.buildings@[i], spec_all_ids()[i], table)
                } else {
                    r matches Err(PlanetError::BuildingsConfigError(
                        BuildingsConfigError::BuildingNotFound(m),
                    )) && m@ == "Building config for "@ + spec_type_key(
                        spec_all_ids()[spec_first_missing(table)],
                    ) + " not found"@
                }
            }),
    {
        let buildings = Self::init_all_buildings_zero(buildings_config)?;
        Ok(Planet { name: name.to_owned(), buildings })
    }

    pub fn get_name(&self) -> (r: &str)
        ensures
            r@ == self.name@,
    {
        self.name.as_str()
    }

    fn init_all_buildings_zero(buildings_config: &BuildingsConfig) -> (r: Result<
        Vec<BuildingType>,
        PlanetError,
    >)
        ensures
            ({
                let table = buildings_config.buildings@;
                if spec_first_missing(table) == 9 {
                    r matches Ok(v) && v@.len() == 9 && forall|i: int|
                        0 <= i < 9 ==> fresh_slot(#[trigger] v@[i], spec_all_ids()[i], table)
                } else {
                    r matches Err(PlanetError::BuildingsConfigError(
                        BuildingsConfigError::BuildingNotFound(m),
                    )) && m@ == "Building config for "@ + spec_type_key(
                        spec_all_ids()[spec_first_missing(table)],
                    ) + " not found"@
                }
            }),
    {
        let ids = BuildingTypeId::all();
        let mut buildings: Vec<BuildingType> = Vec::new();
        let mut i: usize = 0;
        while i < 9
            invariant
                ids@ == spec_all_ids(),
                i <= 9,
                buildings@.len() == i,
                forall|j: int|
                    0 <= j < i ==> fresh_slot(
                        #[trigger] buildings@[j],
                        spec_all_ids()[j],
                        buildings_config.buildings@,
                    ),
                forall|j: int|
                    0 <= j < i ==> spec_has_config(
                        buildings_config.buildings@,
                        spec_type_key(spec_all_ids()[j]),
                    ),
            decreases 9 - i,
        {
            let id = ids[i];
            match buildings_config.get(id.get_name()) {
                Some(building_config) => {
                    buildings.push(BuildingType::new_zero(id, building_config.clone()));
                },
                None => {
                    let msg = "Building config for ".to_owned().concat(id.get_name()).concat(
                        " not found",
                    );
                    proof {
                        assert(spec_first_missing(buildings_config.buildings@) == i as int);
                    }
                    return Err(
                        PlanetError::BuildingsConfigError(
                            BuildingsConfigError::BuildingNotFound(msg),
                        ),
                    );
                },
            }
            i = i + 1;
        }
        proof {
            assert(spec_first_missing(buildings_config.buildings@) == 9);
        }
        Ok(buildings)
    }

    /// Sums producer output per bound resource; every resource is
    /// reported, zero where nothing produces it.
    pub fn get_production_rates(&self) -> (r: ResourceRates)
        requires
            self.wf(),
        ensures
            r.energy == self.spec_production_of(Resource::Energy),
            r.minerals == self.spec_production_of(Resource::Minerals),
            r.gas == self.spec_production_of(Resource::Gas),
    {
        let mut rates = ResourceRates { energy: 0, minerals: 0, gas: 0 };
        let ei = producer_building_id(Resource::Energy).slot();
        match &self.buildings[ei] {
            BuildingType::FusionReactor(p) => {
                rates.energy = p.get_production_rate();
            },
            _ => {},
        }
        let mi = producer_building_id(Resource::Minerals).slot();
        match &self.buildings[mi] {
            BuildingType::MineralMine(p) => {
                rates.minerals = p.get_production_rate();
            },
            _ => {},
        }
        let gi = producer_building_id(Resource::Gas).slot();
        match &self.buildings[gi] {
            BuildingType::GasExtractor(p) => {
                rates.gas = p.get_production_rate();
            },
            _ => {},
        }
        rates
    }

    pub fn get_resource_amount(&self, resource: Resource) -> (r: u32)
        requires
            self.wf(),
        ensures
            r == self.spec_storage(resource).current_amount,
    {
        match self.get_resource_storage_ref(resource) {
            Ok(storage) => storage.get_current_amount(),
            Err(_) => 0,
        }
    }

    pub fn get_resource_capacity(&self, resource: Resource) -> (r: u32)
        requires
            self.wf(),
        ensures
            r == self.spec_storage(resource).capacity,
    {
        match self.get_resource_storage_ref(resource) {
            Ok(storage) => storage.get_capacity(),
            Err(_) => 0,
        }
    }

    /// Adds one resource's production to its bound storage, clamped to
    /// the capacity; all other slots are untouched.
    fn fill_storage(&mut self, res: Resource, rate: u32)
        requires
            old(self).wf(),
        ensures
            final(self).wf(),
            final(self).name == old(self).name,
            final(self).buildings@ == old(self).buildings@.update(
                spec_slot_of(spec_storage_id(res)),
                ({
                    let s = old(self).spec_storage(res);
                    match old(self).spec_building(spec_storage_id(res)) {
                        BuildingType::BatteryArray(_) => BuildingType::BatteryArray(
                            spec_filled(s, rate),
                        ),
                        BuildingType::GasTank(_) => BuildingType::GasTank(spec_filled(s, rate)),
                        BuildingType::MineralSilo(_) => BuildingType::MineralSilo(
                            spec_filled(s, rate),
                        ),
                        _ => old(self).spec_building(spec_storage_id(res)),
                    }
                }),
            ),
    {
        let id = storage_building_id(res);
        let i = id.slot();
        let b = self.buildings.remove(i);
        let filled = match b {
            BuildingType::BatteryArray(mut s) => {
                if rate > 0 {
                    s.add_resource(rate);
                }
                BuildingType::BatteryArray(s)
            },
            BuildingType::GasTank(mut s) => {
                if rate > 0 {
                    s.add_resource(rate);
                }
                BuildingType::GasTank(s)
            },
            BuildingType::MineralSilo(mut s) => {
                if rate > 0 {
                    s.add_resource(rate);
                }
                BuildingType::MineralSilo(s)
            },
            other => other,
        };
        self.buildings.insert(i, filled);
        proof {
            assert(final(self).buildings@ =~= old(self).buildings@.update(
                spec_slot_of(spec_storage_id(res)),
                final(self).buildings@[spec_slot_of(spec_storage_id(res))],
            ));
        }
    }

    /// At turn end: each resource with positive production is added to
    /// its bound storage, clamped to that storage's capacity.
    pub fn generate_resources(&mut self) -> (r: Result<(), PlanetError>)
        requires
            old(self).wf(),
        ensures
            r is Ok,
            final(self).wf(),
            final(self).name == old(self).name,
            final(self).buildings@.len() == 9,
            forall|i: int|
                0 <= i < 9 ==> final(self).buildings@[i] == spec_generated_slot(*old(self), i),
    {
        let rates = self.get_production_rates();
        if rates.energy > 0 {
            self.fill_storage(Resource::Energy, rates.energy);
        }
        if rates.minerals > 0 {
            self.fill_storage(Resource::Minerals, rates.minerals);
        }
        if rates.gas > 0 {
            self.fill_storage(Resource::Gas, rates.gas);
        }
        Ok(())
    }

    fn get_building(&self, building_id: BuildingTypeId) -> (r: Result<&BuildingType, PlanetError>)
        requires
            self.wf(),
        ensures
            r matches Ok(b) && *b == self.spec_building(building_id),
    {
        let i = building_id.slot();
        Ok(&self.buildings[i])
    }

    fn get_resource_storage_ref(&self, resource: Resource) -> (r: Result<&Storage, PlanetError>)
        requires
            self.wf(),
        ensures
            r matches Ok(s) && *s == self.spec_storage(resource),
    {
        let building = match self.get_building(storage_building_id(resource)) {
            Ok(b) => b,
            Err(e) => {
                return Err(e);
            },
        };
        match building {
            BuildingType::BatteryArray(storage) => Ok(storage),
            BuildingType::GasTank(storage) => Ok(storage),
            BuildingType::MineralSilo(storage) => Ok(storage),
            _ => Err(PlanetError::IncorrectBuildingType),
        }
    }

    /// Whether the stored resource amounts cover the cost of the next
    /// level: the cost arrays are indexed by the current level, and a
    /// missing cost component is a configuration defect.
    fn has_enough_resources(
        &self,
        building: Option<&BuildingType>,
        building_config: &BuildingConfig,
    ) -> (r: Result<(), PlanetError>)
        requires
            self.wf(),
        ensures
            ({
                let lvl = (match building {
                    Some(b) => b.spec_level(),
                    None => 1u8,
                }) as int;
                let cfg = *building_config;
                if cfg.upgrade_cost.energy@.len() <= lvl {
                    r matches Err(PlanetError::BuildingsConfigError(
                        BuildingsConfigError::EnergyCostMismatch(m),
                    )) && m@ == "Energy cost for level "@ + spec_decimal(lvl) + " not found"@
                } else if cfg.upgrade_cost.minerals@.len() <= lvl {
                    r matches Err(PlanetError::BuildingsConfigError(
                        BuildingsConfigError::MineralsCostMismatch(m),
                    )) && m@ == "Minerals cost for level "@ + spec_decimal(lvl) + " not found"@
                } else if cfg.upgrade_cost.gas@.len() <= lvl {
                    r matches Err(PlanetError::BuildingsConfigError(
                        BuildingsConfigError::GasCostMismatch(m),
                    )) && m@ == "Gas cost for level "@ + spec_decimal(lvl) + " not found"@
                } else if self.spec_storage(Resource::Energy).current_amount
                    >= cfg.upgrade_cost.energy@[lvl] && self.spec_storage(
                    Resource::Minerals,
                ).current_amount >= cfg.upgrade_cost.minerals@[lvl] && self.spec_storage(
                    Resource::Gas,
                ).current_amount >= cfg.upgrade_cost.gas@[lvl] {
                    r is Ok
                } else {
                    r == Err::<(), PlanetError>(PlanetError::InsufficientResources)
                }
            }),
    {
        let building_level = match building {
            Some(b) => b.get_level(),
            None => 1,
        };
        let upgrade_cost = building_config.get_upgrade_cost();
        let idx = building_level as usize;
        let energy_cost = if idx < upgrade_cost.energy.len() {
            upgrade_cost.energy[idx]
        } else {
            return Err(
                PlanetError::BuildingsConfigError(
                    BuildingsConfigError::EnergyCostMismatch(
                        "Energy cost for level ".to_owned().concat(
                            u64_to_string(building_level as u64).as_str(),
                        ).concat(" not found"),
                    ),
                ),
            );
        };
        let minerals_cost = if idx < upgrade_cost.minerals.len() {
            upgrade_cost.minerals[idx]
        } else {
            return Err(
                PlanetError::BuildingsConfigError(
                    BuildingsConfigError::MineralsCostMismatch(
                        "Minerals cost for level ".to_owned().concat(
                            u64_to_string(building_level as u64).as_str(),
                        ).concat(" not found"),
                    ),
                ),
            );
        };
        let gas_cost = if idx < upgrade_cost.gas.len() {
            upgrade_cost.gas[idx]
        } else {
            return Err(
                PlanetError::BuildingsConfigError(
                    BuildingsConfigError::GasCostMismatch(
                        "Gas cost for level ".to_owned().concat(
                            u64_to_string(building_level as u64).as_str(),
                        ).concat(" not found"),
                    ),
                ),
            );
        };
        if self.get_resource_amount(Resource::Energy) >= energy_cost && self.get_resource_amount(
            Resource::Minerals,
        ) >= minerals_cost && self.get_resource_amount(Resource::Gas) >= gas_cost {
            Ok(())
        } else {
            Err(PlanetError::InsufficientResources)
        }
    }

    /// Whether a build of the given kind goes through: the building is
    /// below its maximum level, every cost component exists at the
    /// current level, the stored amounts cover them, and the next
    /// level's configuration entry exists.
    pub open spec fn spec_build_ok(&self, building_id: BuildingTypeId, cfg: BuildingConfig) -> bool {
        let b = self.spec_building(building_id);
        let lvl = b.spec_level() as int;
        &&& b.spec_level() < b.spec_max_level()
        &&& lvl < cfg.upgrade_cost.energy@.len()
        &&& lvl < cfg.upgrade_cost.minerals@.len()
        &&& lvl < cfg.upgrade_cost.gas@.len()
        &&& self.spec_storage(Resource::Energy).current_amount >= cfg.upgrade_cost.energy@[lvl]
        &&& self.spec_storage(Resource::Minerals).current_amount
            >= cfg.upgrade_cost.minerals@[lvl]
        &&& self.spec_storage(Resource::Gas).current_amount >= cfg.upgrade_cost.gas@[lvl]
        &&& b.spec_upgrade_ok()
    }

    /// The upgrade entry point: refuses a building at its maximum
    /// level, then checks affordability against the stored amounts, and
    /// only then upgrades. A failed build leaves the planet unchanged.
    /// Known limitation: the checked resources are not debited on
    /// success; the cost gates the upgrade but is never spent.
    pub fn build(&mut self, building_id: BuildingTypeId, building_config: &BuildingConfig) -> (r:
        Result<(), PlanetError>)
        requires
            old(self).wf(),
        ensures
            final(self).wf(),
            final(self).name == old(self).name,
            r is Err ==> final(self).buildings@ == old(self).buildings@,
            r is Ok <==> old(self).spec_build_ok(building_id, *building_config),
            r is Ok ==> final(self).buildings@ == old(self).buildings@.update(
                spec_slot_of(building_id),
                old(self).spec_building(building_id).spec_upgraded(),
            ),
            build_outcome(*old(self), building_id, *building_config, r),
    {
        let i = building_id.slot();
        let b_level = self.buildings[i].get_level();
        let b_max = max_level_of(&self.buildings[i]);
        if b_level >= b_max {
            return Err(
                PlanetError::BuildingError(
                    BuildingError::MaxLevelReached { current: b_level, max: b_max },
                ),
            );
        }
        match self.has_enough_resources(Some(&self.buildings[i]), building_config) {
            Ok(()) => {},
            Err(e) => {
                return Err(e);
            },
        }
        let mut b = self.buildings.remove(i);
        let result = b.upgrade();
        self.buildings.insert(i, b);
        proof {
            assert(old(self).buildings@.remove(i as int).insert(i as int, old(self).buildings@[i as int])
                =~= old(self).buildings@);
            assert(old(self).buildings@.remove(i as int).insert(
                i as int,
                old(self).spec_building(building_id).spec_upgraded(),
            ) =~= old(self).buildings@.update(
                i as int,
                old(self).spec_building(building_id).spec_upgraded(),
            ));
        }
        match result {
            Ok(()) => Ok(()),
            Err(e) => Err(PlanetError::BuildingError(e)),
        }
    }

    /// What a display snapshot of this planet holds: its name, every
    /// building's name and level in slot order, the production rates,
    /// the per-resource fill and capacity, and the given planet count.
    pub open spec fn status_of(&self, total_planet_count: usize, st: PlanetStatus) -> bool {
        &&& st.planet_name@ == self.name@
        &&& st.buildings@.len() == 9
        &&& forall|i: int|
            0 <= i < 9 ==> (#[trigger] st.buildings@[i]).0@ == self.buildings@[i].spec_name()
                && st.buildings@[i].1 == self.buildings@[i].spec_level()
        &&& st.production.energy == self.spec_production_of(Resource::Energy)
        &&& st.production.minerals == self.spec_production_of(Resource::Minerals)
        &&& st.production.gas == self.spec_production_of(Resource::Gas)
        &&& st.storage.energy == (
            self.spec_storage(Resource::Energy).current_amount,
            self.spec_storage(Resource::Energy).capacity,
        )
        &&& st.storage.minerals == (
            self.spec_storage(Resource::Minerals).current_amount,
            self.spec_storage(Resource::Minerals).capacity,
        )
        &&& st.storage.gas == (
            self.spec_storage(Resource::Gas).current_amount,
            self.spec_storage(Resource::Gas).capacity,
        )
        &&& st.planet_count == total_planet_count
    }

    /// A display snapshot: name, building levels, production rates and
    /// per-resource storage fill, plus the caller-supplied planet count.
    pub fn get_status(&self, total_planet_count: usize) -> (st: PlanetStatus)
        requires
            self.wf(),
        ensures
            self.status_of(total_planet_count, st),
    {
        let planet_name = self.get_name().to_owned();
        let mut buildings_list: Vec<(String, u8)> = Vec::new();
        let mut i: usize = 0;
        while i < 9
            invariant
                self.wf(),
                i <= 9,
                buildings_list@.len() == i,
                forall|j: int|
                    0 <= j < i ==> (#[trigger] buildings_list@[j]).0@
                        == self.buildings@[j].spec_name() && buildings_list@[j].1
                        == self.buildings@[j].spec_level(),
            decreases 9 - i,
        {
            let b = &self.buildings[i];
            buildings_list.push((b.get_name().to_owned(), b.get_level()));
            i = i + 1;
        }
        let production = self.get_production_rates();
        let storage = StorageLevels {
            energy: (
                self.get_resource_amount(Resource::Energy),
                self.get_resource_capacity(Resource::Energy),
            ),
            minerals: (
                self.get_resource_amount(Resource::Minerals),
                self.get_resource_capacity(Resource::Minerals),
            ),
            gas: (
                self.get_resource_amount(Resource::Gas),
                self.get_resource_capacity(Resource::Gas),
            ),
        };
        PlanetStatus {
            planet_name,
            buildings: buildings_list,
            production,
            storage,
            planet_count: total_planet_count,
        }
    }
}

/// How a build call's result relates to the planet it was applied to:
/// which error comes on which state, with its exact message, and when
/// the call succeeds.
pub open spec fn build_outcome(
    before: Planet,
    building_id: BuildingTypeId,
    cfg: BuildingConfig,
    r: Result<(), PlanetError>,
) -> bool {
    let b = before.spec_building(building_id);
    let lvl = b.spec_level() as int;
    if b.spec_level() >= b.spec_max_level() {
        r == Err::<(), PlanetError>(
            PlanetError::BuildingError(
                BuildingError::MaxLevelReached { current: b.spec_level(), max: b.spec_max_level() },
            ),
        )
    } else if cfg.upgrade_cost.energy@.len() <= lvl {
        r matches Err(PlanetError::BuildingsConfigError(
            BuildingsConfigError::EnergyCostMismatch(m),
        )) && m@ == "Energy cost for level "@ + spec_decimal(lvl) + " not found"@
    } else if cfg.upgrade_cost.minerals@.len() <= lvl {
        r matches Err(PlanetError::BuildingsConfigError(
            BuildingsConfigError::MineralsCostMismatch(m),
        )) && m@ == "Minerals cost for level "@ + spec_decimal(lvl) + " not found"@
    } else if cfg.upgrade_cost.gas@.len() <= lvl {
        r matches Err(PlanetError::BuildingsConfigError(
            BuildingsConfigError::GasCostMismatch(m),
        )) && m@ == "Gas cost for level "@ + spec_decimal(lvl) + " not found"@
    } else if !(before.spec_storage(Resource::Energy).current_amount
        >= cfg.upgrade_cost.energy@[lvl] && before.spec_storage(Resource::Minerals).current_amount
        >= cfg.upgrade_cost.minerals@[lvl] && before.spec_storage(Resource::Gas).current_amount
        >= cfg.upgrade_cost.gas@[lvl]) {
        r == Err::<(), PlanetError>(PlanetError::InsufficientResources)
    } else if !b.spec_upgrade_ok() {
        r == Err::<(), PlanetError>(
            PlanetError::BuildingError(BuildingError::WrongBuildingConfiguration),
        )
    } else {
        r is Ok
    }
}

/// A build outcome depends on the configuration only through the
/// values it prescribes, not the allocation that holds them.
pub proof fn lemma_build_outcome_config_eq(
    before: Planet,
    building_id: BuildingTypeId,
    c1: BuildingConfig,
    c2: BuildingConfig,
    r: Result<(), PlanetError>,
)
    requires
        crate::config::config_eq(c1, c2),
    ensures
        build_outcome(before, building_id, c1, r) == build_outcome(before, building_id, c2, r),
        before.spec_build_ok(building_id, c1) == before.spec_build_ok(building_id, c2),
{
}

/// The configured maximum level of a building slot.
fn max_level_of(b: &BuildingType) -> (m: u8)
    ensures
        m == b.spec_max_level(),
{
    match b {
        BuildingType::CommandCenter(base) => base.building_config.max_level,
        BuildingType::OrbitalShipyard(base) => base.building_config.max_level,
        BuildingType::ResearchLab(base) => base.building_config.max_level,
        BuildingType::FusionReactor(p) => p.building.building_config.max_level,
        BuildingType::GasExtractor(p) => p.building.building_config.max_level,
        BuildingType::MineralMine(p) => p.building.building_config.max_level,
        BuildingType::BatteryArray(s) => s.building.building_config.max_level,
        BuildingType::GasTank(s) => s.building.building_config.max_level,
        BuildingType::MineralSilo(s) => s.building.building_config.max_level,
    }
}

} // verus!
