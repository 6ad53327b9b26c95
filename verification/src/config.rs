//! Static per-building configuration: maximum level, per-level upgrade
//! costs, and per-level production rates or storage capacities. The table
//! is produced by an external loader; the engine consumes it read-only
//! after the validation below has accepted it.

use vstd::prelude::*;

use crate::resource::Resource;
use crate::text::{spec_decimal, str_eq, u64_to_string};

verus! {


/// The position of the first table entry that breaks the length
/// invariant; the table's length when none does.
pub open spec fn spec_first_invalid(entries: Seq<(String, BuildingConfig)>) -> int
    decreases entries.len(),
{
    if entries.len() == 0 {
        0
    } else if !config_entry_valid(entries[0].1) {
        0
    } else {
        1 + spec_first_invalid(entries.drop_first())
    }
}

/// Which defect an invalid configuration is reported with: the checks
/// run in a fixed order and name the offending length.
pub open spec fn config_defect_outcome(c: BuildingConfig, e: BuildingsConfigError) -> bool {
    if c.upgrade_cost.energy@.len() != c.max_level {
        e matches BuildingsConfigError::EnergyCostMismatch(m) && m@ == spec_decimal(
            c.upgrade_cost.energy@.len() as int,
        )
    } else if c.upgrade_cost.minerals@.len() != c.max_level {
        e matches BuildingsConfigError::MineralsCostMismatch(m) && m@ == spec_decimal(
            c.upgrade_cost.minerals@.len() as int,
        )
    } else if c.upgrade_cost.gas@.len() != 0 && c.upgrade_cost.gas@.len() != c.max_level {
        e matches BuildingsConfigError::GasCostMismatch(m) && m@ == spec_decimal(
            c.upgrade_cost.gas@.len() as int,
        )
    } else if c.production matches Some(p) && p.rate_per_level@.len() != c.max_level {
        e matches BuildingsConfigError::ProductionRateMismatch(m) && m@ == spec_decimal(
            c.production.unwrap().rate_per_level@.len() as int,
        )
    } else if c.storage matches Some(s) && s.capacity_per_level@.len() != c.max_level {
        e matches BuildingsConfigError::StorageCapacityMismatch(m) && m@ == spec_decimal(
            c.storage.unwrap().capacity_per_level@.len() as int,
        )
    } else if c.building_time.time@.len() != c.max_level {
        e matches BuildingsConfigError::BuildingTimeMismatch(m) && m@ == spec_decimal(
            c.building_time.time@.len() as int,
        )
    } else {
        false
    }
}

proof fn lemma_first_invalid_at(entries: Seq<(String, BuildingConfig)>, k: int)
    requires
        0 <= k < entries.len(),
        !config_entry_valid(entries[k].1),
        forall|j: int| 0 <= j < k ==> #[trigger] config_entry_valid(entries[j].1),
    ensures
        spec_first_invalid(entries) == k,
    decreases entries.len(),
{
    if k > 0 {
        assert forall|j: int| 0 <= j < k - 1 implies #[trigger] config_entry_valid(
            entries.drop_first()[j].1,
        ) by {
            assert(entries.drop_first()[j] == entries[j + 1]);
        }
        assert(entries.drop_first()[k - 1] == entries[k]);
        lemma_first_invalid_at(entries.drop_first(), k - 1);
    }
}


/// A defect in the configuration table: a per-level array whose length
/// does not match the building's maximum level, or a missing building.
#[derive(Debug, Clone, PartialEq, Eq)]
pub enum BuildingsConfigError {
    EnergyCostMismatch(String),
    MineralsCostMismatch(String),
    GasCostMismatch(String),
    ProductionRateMismatch(String),
    StorageCapacityMismatch(String),
    BuildingTimeMismatch(String),
    BuildingNotFound(String),
}

#[derive(Debug)]
pub struct UpgradeCost {
    pub energy: Vec<u32>,
    pub minerals: Vec<u32>,
    pub gas: Vec<u32>,
}

/// Copies a numeric per-level table; the copy holds the same numbers.
fn copy_levels(v: &Vec<u32>) -> (r: Vec<u32>)
    ensures
        r@ == v@,
{
    let r = v.clone();
    proof {
        assert(r@ =~= v@);
    }
    r
}

impl Clone for UpgradeCost {
    fn clone(&self) -> (res: Self)
        ensures
            res.energy@ == self.energy@,
            res.minerals@ == self.minerals@,
            res.gas@ == self.gas@,
    {
        UpgradeCost {
            energy: copy_levels(&self.energy),
            minerals: copy_levels(&self.minerals),
            gas: copy_levels(&self.gas),
        }
    }
}

#[derive(Debug)]
pub struct BuildingTime {
    pub time: Vec<u32>,
}

impl Clone for BuildingTime {
    fn clone(&self) -> (res: Self)
        ensures
            res.time@ == self.time@,
    {
        BuildingTime { time: copy_levels(&self.time) }
    }
}

#[derive(Debug)]
pub struct ProductionInfo {
    pub resource: Resource,
    pub rate_per_level: Vec<u32>,
}

impl Clone for ProductionInfo {
    fn clone(&self) -> (res: Self)
        ensures
            res.resource == self.resource,
            res.rate_per_level@ == self.rate_per_level@,
    {
        ProductionInfo {
            resource: self.resource,
            rate_per_level: copy_levels(&self.rate_per_level),
        }
    }
}

impl ProductionInfo {
    pub fn get_resource(&self) -> (r: &Resource)
        ensures
            *r == self.resource,
    {
        &self.resource
    }

    pub fn get_rate_for_level(&self, level: usize) -> (r: Option<u32>)
        ensures
            r == (if level < self.rate_per_level@.len() {
                Some(self.rate_per_level@[level as int])
            } else {
                None::<u32>
            }),
    {
        if level < self.rate_per_level.len() {
            Some(self.rate_per_level[level])
        } else {
            None
        }
    }
}

#[derive(Debug)]
pub struct StorageInfo {
    pub resource: Resource,
    pub capacity_per_level: Vec<u32>,
}

impl Clone for StorageInfo {
    fn clone(&self) -> (res: Self)
        ensures
            res.resource == self.resource,
            res.capacity_per_level@ == self.capacity_per_level@,
    {
        StorageInfo {
            resource: self.resource,
            capacity_per_level: copy_levels(&self.capacity_per_level),
        }
    }
}

impl StorageInfo {
    pub fn get_resource(&self) -> (r: &Resource)
        ensures
            *r == self.resource,
    {
        &self.resource
    }

    pub fn get_capacity_for_level(&self, level: usize) -> (r: Option<u32>)
        ensures
            r == (if level < self.capacity_per_level@.len() {
                Some(self.capacity_per_level@[level as int])
            } else {
                None::<u32>
            }),
    {
        if level < self.capacity_per_level.len() {
            Some(self.capacity_per_level[level])
        } else {
            None
        }
    }
}

#[derive(Debug)]
pub struct BuildingConfig {
    pub name: String,
    pub max_level: u8,
    pub upgrade_cost: UpgradeCost,
    pub building_time: BuildingTime,
    pub production: Option<ProductionInfo>,
    pub storage: Option<StorageInfo>,
}

/// Two configurations that prescribe the same thing: every field holds
/// the same values, though the copies may be distinct allocations.
pub open spec fn config_eq(a: BuildingConfig, b: BuildingConfig) -> bool {
    &&& a.name@ == b.name@
    &&& a.max_level == b.max_level
    &&& a.upgrade_cost.energy@ == b.upgrade_cost.energy@
    &&& a.upgrade_cost.minerals@ == b.upgrade_cost.minerals@
    &&& a.upgrade_cost.gas@ == b.upgrade_cost.gas@
    &&& a.building_time.time@ == b.building_time.time@
    &&& (match (a.production, b.production) {
        (Some(pa), Some(pb)) => pa.resource == pb.resource && pa.rate_per_level@
            == pb.rate_per_level@,
        (None, None) => true,
        _ => false,
    })
    &&& (match (a.storage, b.storage) {
        (Some(sa), Some(sb)) => sa.resource == sb.resource && sa.capacity_per_level@
            == sb.capacity_per_level@,
        (None, None) => true,
        _ => false,
    })
}

impl Clone for BuildingConfig {
    fn clone(&self) -> (res: Self)
        ensures
            config_eq(*self, res),
    {
        BuildingConfig {
            name: self.name.clone(),
            max_level: self.max_level,
            upgrade_cost: self.upgrade_cost.clone(),
            building_time: self.building_time.clone(),
            production: match self.production.as_ref() {
                Some(p) => Some(p.clone()),
                None => None,
            },
            storage: match self.storage.as_ref() {
                Some(s) => Some(s.clone()),
                None => None,
            },
        }
    }
}

impl BuildingConfig {
    pub fn get_name(&self) -> (r: &str)
        ensures
            r@ == self.name@,
    {
        self.name.as_str()
    }

    pub fn get_max_level(&self) -> (r: u8)
        ensures
            r == self.max_level,
    {
        self.max_level
    }

    pub fn get_upgrade_cost(&self) -> (r: &UpgradeCost)
        ensures
            *r == self.upgrade_cost,
    {
        &self.upgrade_cost
    }

    pub fn get_production(&self) -> (r: Option<&ProductionInfo>)
        ensures
            match r {
                Some(p) => self.production == Some(*p),
                None => self.production is None,
            },
    {
        self.production.as_ref()
    }

    pub fn get_storage(&self) -> (r: Option<&StorageInfo>)
        ensures
            match r {
                Some(s) => self.storage == Some(*s),
                None => self.storage is None,
            },
    {
        self.storage.as_ref()
    }
}

/// The whole configuration table: one entry per building, keyed by the
/// building's table name. Keys are kept alongside the configurations
/// because a configuration's display name may differ from its key.
#[derive(Debug)]
pub struct BuildingsConfig {
    pub buildings: Vec<(String, BuildingConfig)>,
}

/// Whether one building configuration satisfies the load-time length
/// invariant: cost, rate, capacity and time arrays match `max_level`
/// (the gas cost array may instead be empty).
pub open spec fn config_entry_valid(c: BuildingConfig) -> bool {
    &&& c.upgrade_cost.energy@.len() == c.max_level
    &&& c.upgrade_cost.minerals@.len() == c.max_level
    &&& (c.upgrade_cost.gas@.len() == 0 || c.upgrade_cost.gas@.len() == c.max_level)
    &&& (c.production matches Some(p) ==> p.rate_per_level@.len() == c.max_level)
    &&& (c.storage matches Some(s) ==> s.capacity_per_level@.len() == c.max_level)
    &&& c.building_time.time@.len() == c.max_level
}

/// The index of the first table entry keyed `name`, if any.
pub open spec fn spec_config_index(entries: Seq<(String, BuildingConfig)>, name: Seq<char>) -> int
    decreases entries.len(),
{
    if entries.len() == 0 {
        -1
    } else if entries[0].0@ == name {
        0
    } else {
        let rest = spec_config_index(entries.drop_first(), name);
        if rest == -1 {
            -1
        } else {
            rest + 1
        }
    }
}

pub open spec fn spec_has_config(entries: Seq<(String, BuildingConfig)>, name: Seq<char>) -> bool {
    spec_config_index(entries, name) != -1
}

/// The configuration stored under the first entry keyed `name`.
pub open spec fn spec_config_of(
    entries: Seq<(String, BuildingConfig)>,
    name: Seq<char>,
) -> BuildingConfig {
    entries[spec_config_index(entries, name)].1
}

pub proof fn lemma_config_index_bounds(entries: Seq<(String, BuildingConfig)>, name: Seq<char>)
    ensures
        spec_config_index(entries, name) == -1 || (0 <= spec_config_index(entries, name)
            < entries.len() && entries[spec_config_index(entries, name)].0@ == name),
        spec_config_index(entries, name) == -1 ==> forall|i: int|
            0 <= i < entries.len() ==> entries[i].0@ != name,
    decreases entries.len(),
{
    if entries.len() > 0 {
        lemma_config_index_bounds(entries.drop_first(), name);
        let rest = spec_config_index(entries.drop_first(), name);
        if entries[0].0@ != name {
            if rest == -1 {
                assert forall|i: int| 0 <= i < entries.len() implies entries[i].0@ != name by {
                    if i > 0 {
                        assert(entries.drop_first()[i - 1] == entries[i]);
                    }
                }
            } else {
                assert(entries.drop_first()[rest] == entries[rest + 1]);
            }
        }
    }
}

impl BuildingsConfig {
    /// Looks a building's configuration up by its table key.
    pub fn get(&self, name: &str) -> (r: Option<&BuildingConfig>)
        ensures
            match r {
                Some(c) => spec_has_config(self.buildings@, name@) && *c == spec_config_of(
                    self.buildings@,
                    name@,
                ),
                None => !spec_has_config(self.buildings@, name@),
            },
    {
        let n = self.buildings.len();
        let mut i: usize = 0;
        while i < n
            invariant
                n == self.buildings@.len(),
                i <= n,
                forall|j: int| 0 <= j < i ==> self.buildings@[j].0@ != name@,
            decreases n - i,
        {
            if str_eq(self.buildings[i].0.as_str(), name) {
                proof {
                    lemma_config_index_first(self.buildings@, name@, i as int);
                }
                return Some(&self.buildings[i].1);
            }
            i = i + 1;
        }
        proof {
            lemma_config_index_bounds(self.buildings@, name@);
            if spec_config_index(self.buildings@, name@) != -1 {
                let k = spec_config_index(self.buildings@, name@);
                assert(self.buildings@[k].0@ == name@);
            }
        }
        None
    }

    /// Checks the load-time length invariant over every table entry,
    /// reporting the offending length in the error.
    pub fn validate(&self) -> (r: Result<(), BuildingsConfigError>)
        ensures
            r is Ok <==> forall|i: int|
                0 <= i < self.buildings@.len() ==> #[trigger] config_entry_valid(
                    self.buildings@[i].1,
                ),
            r matches Err(e) ==> ({
                let i = spec_first_invalid(self.buildings@);
                &&& 0 <= i < self.buildings@.len()
                &&& !config_entry_valid(self.buildings@[i].1)
                &&& config_defect_outcome(self.buildings@[i].1, e)
            }),
    {
        let n = self.buildings.len();
        let mut i: usize = 0;
        while i < n
            invariant
                n == self.buildings@.len(),
                i <= n,
                forall|j: int| 0 <= j < i ==> #[trigger] config_entry_valid(self.buildings@[j].1),
            decreases n - i,
        {
            let config = &self.buildings[i].1;
            let max_lvl: usize = config.max_level as usize;
            proof {
                let ghost c = self.buildings@[i as int].1;
                assert(config_entry_valid(c) ==> {
                    &&& c.upgrade_cost.energy@.len() == c.max_level
                    &&& c.upgrade_cost.minerals@.len() == c.max_level
                    &&& (c.upgrade_cost.gas@.len() == 0 || c.upgrade_cost.gas@.len()
                        == c.max_level)
                    &&& (c.production matches Some(p) ==> p.rate_per_level@.len() == c.max_level)
                    &&& (c.storage matches Some(s) ==> s.capacity_per_level@.len() == c.max_level)
                    &&& c.building_time.time@.len() == c.max_level
                });
            }
            if config.upgrade_cost.energy.len() != max_lvl {
                proof {
                    lemma_first_invalid_at(self.buildings@, i as int);
                }
                return Err(
                    BuildingsConfigError::EnergyCostMismatch(
                        u64_to_string(config.upgrade_cost.energy.len() as u64),
                    ),
                );
            }
            if config.upgrade_cost.minerals.len() != max_lvl {
                proof {
                    lemma_first_invalid_at(self.buildings@, i as int);
                }
                return Err(
                    BuildingsConfigError::MineralsCostMismatch(
                        u64_to_string(config.upgrade_cost.minerals.len() as u64),
                    ),
                );
            }
            if config.upgrade_cost.gas.len() != 0 && config.upgrade_cost.gas.len() != max_lvl {
                proof {
                    lemma_first_invalid_at(self.buildings@, i as int);
                }
                return Err(
                    BuildingsConfigError::GasCostMismatch(
                        u64_to_string(config.upgrade_cost.gas.len() as u64),
                    ),
                );
            }
            if let Some(prod) = config.production.as_ref() {
                if prod.rate_per_level.len() != max_lvl {
                    proof {
                        lemma_first_invalid_at(self.buildings@, i as int);
                    }
                    return Err(
                        BuildingsConfigError::ProductionRateMismatch(
                            u64_to_string(prod.rate_per_level.len() as u64),
                        ),
                    );
                }
            }
            if let Some(stor) = config.storage.as_ref() {
                if stor.capacity_per_level.len() != max_lvl {
                    proof {
                        lemma_first_invalid_at(self.buildings@, i as int);
                    }
                    return Err(
                        BuildingsConfigError::StorageCapacityMismatch(
                            u64_to_string(stor.capacity_per_level.len() as u64),
                        ),
                    );
                }
            }
            if config.building_time.time.len() != max_lvl {
                proof {
                    lemma_first_invalid_at(self.buildings@, i as int);
                }
                return Err(
                    BuildingsConfigError::BuildingTimeMismatch(
                        u64_to_string(config.building_time.time.len() as u64),
                    ),
                );
            }
            i = i + 1;
        }
        Ok(())
    }
}

proof fn lemma_config_index_first(
    entries: Seq<(String, BuildingConfig)>,
    name: Seq<char>,
    k: int,
)
    requires
        0 <= k < entries.len(),
        entries[k].0@ == name,
        forall|j: int| 0 <= j < k ==> entries[j].0@ != name,
    ensures
        spec_config_index(entries, name) == k,
    decreases entries.len(),
{
    if k > 0 {
        lemma_config_index_first(entries.drop_first(), name, k - 1);
    }
}

} // verus!
