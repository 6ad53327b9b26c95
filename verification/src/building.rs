//! The building upgrade state machine. A building is one of three shapes
//! sharing a name, a level and a bound configuration: a base building
//! with no economic effect, a producer whose level determines a
//! production rate, or a storage whose level determines a capacity and
//! which holds a current stored amount.

use vstd::prelude::*;

use crate::config::BuildingConfig;
use crate::resource::Resource;

verus! {

#[derive(Debug, Clone, PartialEq, Eq)]
pub enum BuildingError {
    WrongBuildingConfiguration,
    MaxLevelReached { current: u8, max: u8 },
    InsufficientResources { required: u32, available: u32 },
}

/// The production rate the configuration prescribes at a level; zero when
/// the building produces nothing or the table has no entry for the level.
pub open spec fn rate_at(c: BuildingConfig, level: int) -> u32 {
    match c.production {
        Some(p) => if 0 <= level < p.rate_per_level@.len() {
            p.rate_per_level@[level]
        } else {
            0u32
        },
        None => 0u32,
    }
}

/// The storage capacity the configuration prescribes at a level; zero when
/// the building stores nothing or the table has no entry for the level.
pub open spec fn cap_at(c: BuildingConfig, level: int) -> u32 {
    match c.storage {
        Some(s) => if 0 <= level < s.capacity_per_level@.len() {
            s.capacity_per_level@[level]
        } else {
            0u32
        },
        None => 0u32,
    }
}

/// The common surface of every building shape: a display name, a level
/// bounded by the configured maximum, and a level-by-level upgrade that
/// either succeeds, reports the maximum was reached, or reports a gap in
/// the per-level configuration — leaving the building untouched in both
/// failure cases.
pub trait Building: Sized {
    spec fn spec_name(&self) -> Seq<char>;

    spec fn spec_level(&self) -> u8;

    spec fn spec_max_level(&self) -> u8;

    /// Whether an upgrade away from the maximum finds its per-level
    /// configuration entry.
    spec fn spec_upgrade_ok(&self) -> bool;

    /// The value after a successful upgrade.
    spec fn spec_upgraded(&self) -> Self;

    fn get_name(&self) -> (r: &str)
        ensures
            r@ == self.spec_name(),
    ;

    fn get_level(&self) -> (r: u8)
        ensures
            r == self.spec_level(),
    ;

    fn upgrade(&mut self) -> (r: Result<(), BuildingError>)
        ensures
            ({
                if old(self).spec_level() >= old(self).spec_max_level() {
                    &&& r == Err::<(), BuildingError>(
                        BuildingError::MaxLevelReached {
                            current: old(self).spec_level(),
                            max: old(self).spec_max_level(),
                        },
                    )
                    &&& *final(self) == *old(self)
                } else if !old(self).spec_upgrade_ok() {
                    &&& r == Err::<(), BuildingError>(BuildingError::WrongBuildingConfiguration)
                    &&& *final(self) == *old(self)
                } else {
                    &&& r == Ok::<(), BuildingError>(())
                    &&& *final(self) == old(self).spec_upgraded()
                }
            }),
    ;
}

// --- building identities ----------------------------------------------

/// The closed set of building kinds a planet owns one of each.
#[derive(Debug, Clone, Copy, PartialEq, Eq, Hash, Structural)]
pub enum BuildingTypeId {
    CommandCenter,
    OrbitalShipyard,
    ResearchLab,
    FusionReactor,
    GasExtractor,
    MineralMine,
    BatteryArray,
    GasTank,
    MineralSilo,
}

/// The configuration-table key of a building kind.
pub open spec fn spec_type_key(id: BuildingTypeId) -> Seq<char> {
    match id {
        BuildingTypeId::CommandCenter => "CommandCenter"@,
        BuildingTypeId::OrbitalShipyard => "OrbitalShipyard"@,
        BuildingTypeId::ResearchLab => "ResearchLab"@,
        BuildingTypeId::FusionReactor => "FusionReactor"@,
        BuildingTypeId::GasExtractor => "GasExtractor"@,
        BuildingTypeId::MineralMine => "MineralMine"@,
        BuildingTypeId::BatteryArray => "BatteryArray"@,
        BuildingTypeId::GasTank => "GasTank"@,
        BuildingTypeId::MineralSilo => "MineralSilo"@,
    }
}

/// The display name a freshly created building of a kind carries.
pub open spec fn spec_display_name(id: BuildingTypeId) -> Seq<char> {
    match id {
        BuildingTypeId::CommandCenter => "Command Center"@,
        BuildingTypeId::OrbitalShipyard => "Orbital Shipyard"@,
        BuildingTypeId::ResearchLab => "Research Lab"@,
        BuildingTypeId::FusionReactor => "Fusion Reactor"@,
        BuildingTypeId::GasExtractor => "Gas Extractor"@,
        BuildingTypeId::MineralMine => "Mineral Mine"@,
        BuildingTypeId::BatteryArray => "Battery Array"@,
        BuildingTypeId::GasTank => "Gas Tank"@,
        BuildingTypeId::MineralSilo => "Mineral Storage"@,
    }
}

/// The fixed enumeration order of the building kinds.
pub open spec fn spec_all_ids() -> Seq<BuildingTypeId> {
    seq![
        BuildingTypeId::CommandCenter,
        BuildingTypeId::OrbitalShipyard,
        BuildingTypeId::ResearchLab,
        BuildingTypeId::FusionReactor,
        BuildingTypeId::GasExtractor,
        BuildingTypeId::MineralMine,
        BuildingTypeId::BatteryArray,
        BuildingTypeId::GasTank,
        BuildingTypeId::MineralSilo,
    ]
}

/// The position of a building kind in the fixed enumeration order.
pub open spec fn spec_slot_of(id: BuildingTypeId) -> int {
    match id {
        BuildingTypeId::CommandCenter => 0,
        BuildingTypeId::OrbitalShipyard => 1,
        BuildingTypeId::ResearchLab => 2,
        BuildingTypeId::FusionReactor => 3,
        BuildingTypeId::GasExtractor => 4,
        BuildingTypeId::MineralMine => 5,
        BuildingTypeId::BatteryArray => 6,
        BuildingTypeId::GasTank => 7,
        BuildingTypeId::MineralSilo => 8,
    }
}

impl BuildingTypeId {
    /// The position of this kind in the fixed enumeration order.
    pub fn slot(&self) -> (i: usize)
        ensures
            i == spec_slot_of(*self),
            i < 9,
    {
        match self {
            Self::CommandCenter => 0,
            Self::OrbitalShipyard => 1,
            Self::ResearchLab => 2,
            Self::FusionReactor => 3,
            Self::GasExtractor => 4,
            Self::MineralMine => 5,
            Self::BatteryArray => 6,
            Self::GasTank => 7,
            Self::MineralSilo => 8,
        }
    }

    pub fn get_name(&self) -> (r: &str)
        ensures
            r@ == spec_type_key(*self),
    {
        match self {
            Self::CommandCenter => "CommandCenter",
            Self::OrbitalShipyard => "OrbitalShipyard",
            Self::ResearchLab => "ResearchLab",
            Self::FusionReactor => "FusionReactor",
            Self::GasExtractor => "GasExtractor",
            Self::MineralMine => "MineralMine",
            Self::BatteryArray => "BatteryArray",
            Self::GasTank => "GasTank",
            Self::MineralSilo => "MineralSilo",
        }
    }

    /// Every building kind, in the fixed enumeration order.
    pub fn all() -> (v: Vec<BuildingTypeId>)
        ensures
            v@ == spec_all_ids(),
    {
        let mut v: Vec<BuildingTypeId> = Vec::new();
        v.push(BuildingTypeId::CommandCenter);
        v.push(BuildingTypeId::OrbitalShipyard);
        v.push(BuildingTypeId::ResearchLab);
        v.push(BuildingTypeId::FusionReactor);
        v.push(BuildingTypeId::GasExtractor);
        v.push(BuildingTypeId::MineralMine);
        v.push(BuildingTypeId::BatteryArray);
        v.push(BuildingTypeId::GasTank);
        v.push(BuildingTypeId::MineralSilo);
        proof {
            assert(v@ =~= spec_all_ids());
        }
        v
    }
}

// --- base building ----------------------------------------------------

#[derive(Debug, Clone)]
pub struct BuildingBase {
    pub name: String,
    pub level: u8,
    pub building_config: BuildingConfig,
}

impl BuildingBase {
    /// Level never exceeds the configured maximum.
    pub open spec fn wf(&self) -> bool {
        self.level <= self.building_config.max_level
    }

    pub fn new(name: &str, level: u8, building_config: BuildingConfig) -> (b: Self)
        requires
            level <= building_config.max_level,
        ensures
            b.name@ == name@,
            b.level == level,
            b.building_config == building_config,
            b.wf(),
    {
        BuildingBase { name: name.to_owned(), level, building_config }
    }
}

impl Building for BuildingBase {
    open spec fn spec_name(&self) -> Seq<char> {
        self.name@
    }

    open spec fn spec_level(&self) -> u8 {
        self.level
    }

    open spec fn spec_max_level(&self) -> u8 {
        self.building_config.max_level
    }

    open spec fn spec_upgrade_ok(&self) -> bool {
        true
    }

    open spec fn spec_upgraded(&self) -> Self {
        (BuildingBase { level: (self.level + 1) as u8, ..(*self) })
    }

    fn get_name(&self) -> (r: &str) {
        self.name.as_str()
    }

    fn get_level(&self) -> (r: u8) {
        self.level
    }

    fn upgrade(&mut self) -> (r: Result<(), BuildingError>) {
        let max_level = self.building_config.get_max_level();
        if self.level >= max_level {
            return Err(BuildingError::MaxLevelReached { current: self.level, max: max_level });
        }
        self.level = self.level + 1;
        Ok(())
    }
}

// --- producer ---------------------------------------------------------

#[derive(Debug, Clone)]
pub struct Productor {
    pub building: BuildingBase,
    pub resource: Resource,
    pub production_rate: u32,
}

impl Productor {
    /// The production rate always matches the configuration at the
    /// current level.
    pub open spec fn wf(&self) -> bool {
        &&& self.building.wf()
        &&& self.production_rate == rate_at(self.building.building_config, self.building.level as int)
    }

    pub fn new(name: &str, level: u8, resource: Resource, building_config: BuildingConfig) -> (b:
        Self)
        requires
            level <= building_config.max_level,
        ensures
            b.building.name@ == name@,
            b.building.level == level,
            b.building.building_config == building_config,
            b.resource == resource,
            b.wf(),
    {
        let production_rate = match building_config.get_production() {
            Some(production) => {
                match production.get_rate_for_level(level as usize) {
                    Some(rate) => rate,
                    None => 0,
                }
            },
            None => 0,
        };
        Productor {
            building: BuildingBase::new(name, level, building_config),
            resource,
            production_rate,
        }
    }

    pub fn get_resource(&self) -> (r: &Resource)
        ensures
            *r == self.resource,
    {
        &self.resource
    }

    pub fn get_production_rate(&self) -> (r: u32)
        ensures
            r == self.production_rate,
    {
        self.production_rate
    }
}

impl Building for Productor {
    open spec fn spec_name(&self) -> Seq<char> {
        self.building.name@
    }

    open spec fn spec_level(&self) -> u8 {
        self.building.level
    }

    open spec fn spec_max_level(&self) -> u8 {
        self.building.building_config.max_level
    }

    open spec fn spec_upgrade_ok(&self) -> bool {
        match self.building.building_config.production {
            Some(p) => self.building.level + 1 < p.rate_per_level@.len(),
            None => false,
        }
    }

    open spec fn spec_upgraded(&self) -> Self {
        (Productor {
            building: BuildingBase { level: (self.building.level + 1) as u8, ..self.building },
            production_rate: rate_at(self.building.building_config, self.building.level + 1),
            ..(*self)
        })
    }

    fn get_name(&self) -> (r: &str) {
        self.building.name.as_str()
    }

    fn get_level(&self) -> (r: u8) {
        self.building.level
    }

    fn upgrade(&mut self) -> (r: Result<(), BuildingError>) {
        let max_level = self.building.building_config.get_max_level();
        if self.building.level >= max_level {
            return Err(
                BuildingError::MaxLevelReached { current: self.building.level, max: max_level },
            );
        }
        let next_rate = match self.building.building_config.get_production() {
            Some(production) => production.get_rate_for_level((self.building.level as usize) + 1),
            None => None,
        };
        match next_rate {
            Some(rate) => {
                self.building.level = self.building.level + 1;
                self.production_rate = rate;
                Ok(())
            },
            None => Err(BuildingError::WrongBuildingConfiguration),
        }
    }
}

// --- storage ----------------------------------------------------------

#[derive(Debug, Clone)]
pub struct Storage {
    pub building: BuildingBase,
    pub resource: Resource,
    pub capacity: u32,
    pub current_amount: u32,
}

/// The amount held after adding to a store: the addition is clamped so
/// the store never exceeds its capacity (a store already over a shrunken
/// capacity accepts nothing).
pub open spec fn spec_added(current: int, amount: int, capacity: int) -> int {
    if capacity >= current {
        if amount <= capacity - current {
            current + amount
        } else {
            capacity
        }
    } else {
        current
    }
}

/// Adding to a store within its capacity stores exactly the smaller of
/// the requested amount and the remaining space, and the store never
/// leaves the range from zero to its capacity.
pub proof fn lemma_added_is_clamped_min(current: int, amount: int, capacity: int)
    requires
        0 <= current <= capacity,
        0 <= amount,
    ensures
        spec_added(current, amount, capacity) - current == if amount <= capacity - current {
            amount
        } else {
            capacity - current
        },
        current <= spec_added(current, amount, capacity) <= capacity,
{
}

/// A well-formed building whose upgrade goes through is well-formed
/// afterwards, one level higher, and still within its configured
/// maximum level.
pub proof fn lemma_upgrade_keeps_invariant(b: BuildingType)
    requires
        b.wf(),
        b.spec_level() < b.spec_max_level(),
        b.spec_upgrade_ok(),
    ensures
        b.spec_upgraded().wf(),
        b.spec_upgraded().spec_level() == b.spec_level() + 1,
        b.spec_upgraded().spec_level() <= b.spec_upgraded().spec_max_level(),
{
}

impl Storage {
    /// The capacity always matches the configuration at the current level.
    pub open spec fn wf(&self) -> bool {
        &&& self.building.wf()
        &&& self.capacity == cap_at(self.building.building_config, self.building.level as int)
    }

    pub fn new(name: &str, level: u8, resource: Resource, building_config: BuildingConfig) -> (b:
        Self)
        requires
            level <= building_config.max_level,
        ensures
            b.building.name@ == name@,
            b.building.level == level,
            b.building.building_config == building_config,
            b.resource == resource,
            b.current_amount == 0,
            b.wf(),
    {
        let capacity = match building_config.get_storage() {
            Some(storage) => {
                match storage.get_capacity_for_level(level as usize) {
                    Some(capacity) => capacity,
                    None => 0,
                }
            },
            None => 0,
        };
        Storage {
            building: BuildingBase::new(name, level, building_config),
            resource,
            capacity,
            current_amount: 0,
        }
    }

    pub fn get_capacity(&self) -> (r: u32)
        ensures
            r == self.capacity,
    {
        self.capacity
    }

    pub fn get_current_amount(&self) -> (r: u32)
        ensures
            r == self.current_amount,
    {
        self.current_amount
    }

    /// Stores as much of the requested amount as the remaining space
    /// allows and reports how much was actually stored.
    pub fn add_resource(&mut self, amount_to_add: u32) -> (actual_added: u32)
        ensures
            final(self).current_amount == spec_added(
                old(self).current_amount as int,
                amount_to_add as int,
                old(self).capacity as int,
            ),
            actual_added == final(self).current_amount - old(self).current_amount,
            final(self).capacity == old(self).capacity,
            final(self).building == old(self).building,
            final(self).resource == old(self).resource,
            old(self).current_amount <= old(self).capacity ==> final(self).current_amount
                <= final(self).capacity,
    {
        let available_space = if self.capacity >= self.current_amount {
            self.capacity - self.current_amount
        } else {
            0
        };
        let actual_added = if amount_to_add < available_space {
            amount_to_add
        } else {
            available_space
        };
        self.current_amount = self.current_amount + actual_added;
        actual_added
    }
}

impl Building for Storage {
    open spec fn spec_name(&self) -> Seq<char> {
        self.building.name@
    }

    open spec fn spec_level(&self) -> u8 {
        self.building.level
    }

    open spec fn spec_max_level(&self) -> u8 {
        self.building.building_config.max_level
    }

    open spec fn spec_upgrade_ok(&self) -> bool {
        match self.building.building_config.storage {
            Some(s) => self.building.level + 1 < s.capacity_per_level@.len(),
            None => false,
        }
    }

    open spec fn spec_upgraded(&self) -> Self {
        (Storage {
            building: BuildingBase { level: (self.building.level + 1) as u8, ..self.building },
            capacity: cap_at(self.building.building_config, self.building.level + 1),
            ..(*self)
        })
    }

    fn get_name(&self) -> (r: &str) {
        self.building.name.as_str()
    }

    fn get_level(&self) -> (r: u8) {
        self.building.level
    }

    fn upgrade(&mut self) -> (r: Result<(), BuildingError>) {
        let max_level = self.building.building_config.get_max_level();
        if self.building.level >= max_level {
            return Err(
                BuildingError::MaxLevelReached { current: self.building.level, max: max_level },
            );
        }
        let next_capacity = match self.building.building_config.get_storage() {
            Some(storage) => storage.get_capacity_for_level((self.building.level as usize) + 1),
            None => None,
        };
        match next_capacity {
            Some(capacity) => {
                self.building.level = self.building.level + 1;
                self.capacity = capacity;
                Ok(())
            },
            None => Err(BuildingError::WrongBuildingConfiguration),
        }
    }
}

// --- the closed sum of building shapes --------------------------------

/// One building slot: the kind decides the shape of the payload.
#[derive(Debug, Clone)]
pub enum BuildingType {
    CommandCenter(BuildingBase),
    OrbitalShipyard(BuildingBase),
    ResearchLab(BuildingBase),
    FusionReactor(Productor),
    GasExtractor(Productor),
    MineralMine(Productor),
    BatteryArray(Storage),
    GasTank(Storage),
    MineralSilo(Storage),
}

/// The resource a producer kind is permanently bound to.
pub open spec fn spec_produced_resource(id: BuildingTypeId) -> Resource {
    match id {
        BuildingTypeId::FusionReactor => Resource::Energy,
        BuildingTypeId::GasExtractor => Resource::Gas,
        BuildingTypeId::MineralMine => Resource::Minerals,
        _ => Resource::Energy,
    }
}

/// The storage kind permanently bound to a resource.
pub open spec fn spec_storage_id(r: Resource) -> BuildingTypeId {
    match r {
        Resource::Energy => BuildingTypeId::BatteryArray,
        Resource::Minerals => BuildingTypeId::MineralSilo,
        Resource::Gas => BuildingTypeId::GasTank,
    }
}

/// The producer kind permanently bound to a resource.
pub open spec fn spec_producer_id(r: Resource) -> BuildingTypeId {
    match r {
        Resource::Energy => BuildingTypeId::FusionReactor,
        Resource::Minerals => BuildingTypeId::MineralMine,
        Resource::Gas => BuildingTypeId::GasExtractor,
    }
}

pub fn storage_building_id(r: Resource) -> (id: BuildingTypeId)
    ensures
        id == spec_storage_id(r),
{
    match r {
        Resource::Energy => BuildingTypeId::BatteryArray,
        Resource::Minerals => BuildingTypeId::MineralSilo,
        Resource::Gas => BuildingTypeId::GasTank,
    }
}

pub fn producer_building_id(r: Resource) -> (id: BuildingTypeId)
    ensures
        id == spec_producer_id(r),
{
    match r {
        Resource::Energy => BuildingTypeId::FusionReactor,
        Resource::Minerals => BuildingTypeId::MineralMine,
        Resource::Gas => BuildingTypeId::GasExtractor,
    }
}

impl BuildingType {
    pub open spec fn spec_id(&self) -> BuildingTypeId {
        match self {
            Self::CommandCenter(_) => BuildingTypeId::CommandCenter,
            Self::OrbitalShipyard(_) => BuildingTypeId::OrbitalShipyard,
            Self::ResearchLab(_) => BuildingTypeId::ResearchLab,
            Self::FusionReactor(_) => BuildingTypeId::FusionReactor,
            Self::GasExtractor(_) => BuildingTypeId::GasExtractor,
            Self::MineralMine(_) => BuildingTypeId::MineralMine,
            Self::BatteryArray(_) => BuildingTypeId::BatteryArray,
            Self::GasTank(_) => BuildingTypeId::GasTank,
            Self::MineralSilo(_) => BuildingTypeId::MineralSilo,
        }
    }

    /// The producer payload, for producer slots.
    pub open spec fn spec_productor(&self) -> Option<Productor> {
        match self {
            Self::FusionReactor(p) => Some(*p),
            Self::GasExtractor(p) => Some(*p),
            Self::MineralMine(p) => Some(*p),
            _ => None,
        }
    }

    /// The storage payload, for storage slots.
    pub open spec fn spec_storage(&self) -> Option<Storage> {
        match self {
            Self::BatteryArray(s) => Some(*s),
            Self::GasTank(s) => Some(*s),
            Self::MineralSilo(s) => Some(*s),
            _ => None,
        }
    }

    /// The configuration the building was created with.
    pub open spec fn spec_config(&self) -> BuildingConfig {
        match self {
            Self::CommandCenter(b) => b.building_config,
            Self::OrbitalShipyard(b) => b.building_config,
            Self::ResearchLab(b) => b.building_config,
            Self::FusionReactor(p) => p.building.building_config,
            Self::GasExtractor(p) => p.building.building_config,
            Self::MineralMine(p) => p.building.building_config,
            Self::BatteryArray(s) => s.building.building_config,
            Self::GasTank(s) => s.building.building_config,
            Self::MineralSilo(s) => s.building.building_config,
        }
    }

    /// Shape, bindings and derived fields are all consistent.
    pub open spec fn wf(&self) -> bool {
        match self {
            Self::CommandCenter(b) => b.wf(),
            Self::OrbitalShipyard(b) => b.wf(),
            Self::ResearchLab(b) => b.wf(),
            Self::FusionReactor(p) => p.wf() && p.resource == Resource::Energy,
            Self::GasExtractor(p) => p.wf() && p.resource == Resource::Gas,
            Self::MineralMine(p) => p.wf() && p.resource == Resource::Minerals,
            Self::BatteryArray(s) => s.wf() && s.resource == Resource::Energy,
            Self::GasTank(s) => s.wf() && s.resource == Resource::Gas,
            Self::MineralSilo(s) => s.wf() && s.resource == Resource::Minerals,
        }
    }

    pub fn get_id(&self) -> (r: BuildingTypeId)
        ensures
            r == self.spec_id(),
    {
        match self {
            Self::CommandCenter(_) => BuildingTypeId::CommandCenter,
            Self::OrbitalShipyard(_) => BuildingTypeId::OrbitalShipyard,
            Self::ResearchLab(_) => BuildingTypeId::ResearchLab,
            Self::FusionReactor(_) => BuildingTypeId::FusionReactor,
            Self::GasExtractor(_) => BuildingTypeId::GasExtractor,
            Self::MineralMine(_) => BuildingTypeId::MineralMine,
            Self::BatteryArray(_) => BuildingTypeId::BatteryArray,
            Self::GasTank(_) => BuildingTypeId::GasTank,
            Self::MineralSilo(_) => BuildingTypeId::MineralSilo,
        }
    }

    /// A fresh level-zero building of the given kind, bound to its fixed
    /// resource and carrying the given configuration.
    pub fn new_zero(id: BuildingTypeId, building_config: BuildingConfig) -> (b: Self)
        ensures
            b.spec_id() == id,
            b.wf(),
            b.spec_level() == 0,
            b.spec_name() == spec_display_name(id),
            b.spec_config() == building_config,
            (match b.spec_storage() {
                Some(s) => s.current_amount == 0 && s.building.building_config == building_config,
                None => true,
            }),
            (match b.spec_productor() {
                Some(p) => p.building.building_config == building_config,
                None => true,
            }),
    {
        match id {
            BuildingTypeId::FusionReactor => Self::FusionReactor(
                Productor::new("Fusion Reactor", 0, Resource::Energy, building_config),
            ),
            BuildingTypeId::GasExtractor => Self::GasExtractor(
                Productor::new("Gas Extractor", 0, Resource::Gas, building_config),
            ),
            BuildingTypeId::MineralMine => Self::MineralMine(
                Productor::new("Mineral Mine", 0, Resource::Minerals, building_config),
            ),
            BuildingTypeId::BatteryArray => Self::BatteryArray(
                Storage::new("Battery Array", 0, Resource::Energy, building_config),
            ),
            BuildingTypeId::GasTank => Self::GasTank(
                Storage::new("Gas Tank", 0, Resource::Gas, building_config),
            ),
            BuildingTypeId::MineralSilo => Self::MineralSilo(
                Storage::new("Mineral Storage", 0, Resource::Minerals, building_config),
            ),
            BuildingTypeId::CommandCenter => Self::CommandCenter(
                BuildingBase::new("Command Center", 0, building_config),
            ),
            BuildingTypeId::OrbitalShipyard => Self::OrbitalShipyard(
                BuildingBase::new("Orbital Shipyard", 0, building_config),
            ),
            BuildingTypeId::ResearchLab => Self::ResearchLab(
                BuildingBase::new("Research Lab", 0, building_config),
            ),
        }
    }
}

impl Building for BuildingType {
    open spec fn spec_name(&self) -> Seq<char> {
        match self {
            Self::CommandCenter(b) => b.spec_name(),
            Self::OrbitalShipyard(b) => b.spec_name(),
            Self::ResearchLab(b) => b.spec_name(),
            Self::FusionReactor(p) => p.spec_name(),
            Self::GasExtractor(p) => p.spec_name(),
            Self::MineralMine(p) => p.spec_name(),
            Self::BatteryArray(s) => s.spec_name(),
            Self::GasTank(s) => s.spec_name(),
            Self::MineralSilo(s) => s.spec_name(),
        }
    }

    open spec fn spec_level(&self) -> u8 {
        match self {
            Self::CommandCenter(b) => b.spec_level(),
            Self::OrbitalShipyard(b) => b.spec_level(),
            Self::ResearchLab(b) => b.spec_level(),
            Self::FusionReactor(p) => p.spec_level(),
            Self::GasExtractor(p) => p.spec_level(),
            Self::MineralMine(p) => p.spec_level(),
            Self::BatteryArray(s) => s.spec_level(),
            Self::GasTank(s) => s.spec_level(),
            Self::MineralSilo(s) => s.spec_level(),
        }
    }

    open spec fn spec_max_level(&self) -> u8 {
        match self {
            Self::CommandCenter(b) => b.spec_max_level(),
            Self::OrbitalShipyard(b) => b.spec_max_level(),
            Self::ResearchLab(b) => b.spec_max_level(),
            Self::FusionReactor(p) => p.spec_max_level(),
            Self::GasExtractor(p) => p.spec_max_level(),
            Self::MineralMine(p) => p.spec_max_level(),
            Self::BatteryArray(s) => s.spec_max_level(),
            Self::GasTank(s) => s.spec_max_level(),
            Self::MineralSilo(s) => s.spec_max_level(),
        }
    }

    open spec fn spec_upgrade_ok(&self) -> bool {
        match self {
            Self::CommandCenter(b) => b.spec_upgrade_ok(),
            Self::OrbitalShipyard(b) => b.spec_upgrade_ok(),
            Self::ResearchLab(b) => b.spec_upgrade_ok(),
            Self::FusionReactor(p) => p.spec_upgrade_ok(),
            Self::GasExtractor(p) => p.spec_upgrade_ok(),
            Self::MineralMine(p) => p.spec_upgrade_ok(),
            Self::BatteryArray(s) => s.spec_upgrade_ok(),
            Self::GasTank(s) => s.spec_upgrade_ok(),
            Self::MineralSilo(s) => s.spec_upgrade_ok(),
        }
    }

    open spec fn spec_upgraded(&self) -> Self {
        match self {
            Self::CommandCenter(b) => Self::CommandCenter(b.spec_upgraded()),
            Self::OrbitalShipyard(b) => Self::OrbitalShipyard(b.spec_upgraded()),
            Self::ResearchLab(b) => Self::ResearchLab(b.spec_upgraded()),
            Self::FusionReactor(p) => Self::FusionReactor(p.spec_upgraded()),
            Self::GasExtractor(p) => Self::GasExtractor(p.spec_upgraded()),
            Self::MineralMine(p) => Self::MineralMine(p.spec_upgraded()),
            Self::BatteryArray(s) => Self::BatteryArray(s.spec_upgraded()),
            Self::GasTank(s) => Self::GasTank(s.spec_upgraded()),
            Self::MineralSilo(s) => Self::MineralSilo(s.spec_upgraded()),
        }
    }

    fn get_name(&self) -> (r: &str) {
        match self {
            Self::CommandCenter(b) => b.get_name(),
            Self::OrbitalShipyard(b) => b.get_name(),
            Self::ResearchLab(b) => b.get_name(),
            Self::FusionReactor(p) => p.get_name(),
            Self::GasExtractor(p) => p.get_name(),
            Self::MineralMine(p) => p.get_name(),
            Self::BatteryArray(s) => s.get_name(),
            Self::GasTank(s) => s.get_name(),
            Self::MineralSilo(s) => s.get_name(),
        }
    }

    fn get_level(&self) -> (r: u8) {
        match self {
            Self::CommandCenter(b) => b.get_level(),
            Self::OrbitalShipyard(b) => b.get_level(),
            Self::ResearchLab(b) => b.get_level(),
            Self::FusionReactor(p) => p.get_level(),
            Self::GasExtractor(p) => p.get_level(),
            Self::MineralMine(p) => p.get_level(),
            Self::BatteryArray(s) => s.get_level(),
            Self::GasTank(s) => s.get_level(),
            Self::MineralSilo(s) => s.get_level(),
        }
    }

    fn upgrade(&mut self) -> (r: Result<(), BuildingError>) {
        match self {
            Self::CommandCenter(b) => b.upgrade(),
            Self::OrbitalShipyard(b) => b.upgrade(),
            Self::ResearchLab(b) => b.upgrade(),
            Self::FusionReactor(p) => p.upgrade(),
            Self::GasExtractor(p) => p.upgrade(),
            Self::MineralMine(p) => p.upgrade(),
            Self::BatteryArray(s) => s.upgrade(),
            Self::GasTank(s) => s.upgrade(),
            Self::MineralSilo(s) => s.upgrade(),
        }
    }
}

} // verus!
