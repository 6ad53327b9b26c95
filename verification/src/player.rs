//! A player: a set of named planets and the turn-end resource
//! generation across all of them.

use vstd::prelude::*;

use crate::config::BuildingsConfig;
use crate::planet::{spec_first_missing, spec_generated_slot, Planet, PlanetError};
use crate::resource::Resource;

verus! {

pub struct Player {
    pub name: String,
    pub planets: Vec<Planet>,
}

/// How one planet relates to its state before a turn-end generation
/// step: same name, same slots, storages filled by their production.
pub open spec fn generated_planet(before: Planet, after: Planet) -> bool {
    &&& after.wf()
    &&& after.name == before.name
    &&& after.buildings@.len() == 9
    &&& forall|i: int| 0 <= i < 9 ==> after.buildings@[i] == spec_generated_slot(before, i)
}

/// How a whole player relates to its state before a turn end: same
/// name, same planets, each having generated its resources.
pub open spec fn player_generated(before: Player, after: Player) -> bool {
    &&& after.name == before.name
    &&& after.planets@.len() == before.planets@.len()
    &&& forall|k: int|
        0 <= k < before.planets@.len() ==> generated_planet(
            before.planets@[k],
            #[trigger] after.planets@[k],
        )
}

/// A store within its capacity stays within its capacity through a
/// turn-end generation step.
pub proof fn lemma_generation_respects_capacity(before: Planet, after: Planet, res: Resource)
    requires
        before.wf(),
        generated_planet(before, after),
        before.spec_storage(res).current_amount <= before.spec_storage(res).capacity,
    ensures
        after.spec_storage(res).current_amount <= after.spec_storage(res).capacity,
        after.spec_storage(res).capacity == before.spec_storage(res).capacity,
{
    let sid = crate::building::spec_slot_of(crate::building::spec_storage_id(res));
    assert(after.buildings@[sid] == crate::planet::spec_generated_slot(before, sid));
    assert(after.spec_storage(res) == crate::planet::spec_filled(
        before.spec_storage(res),
        before.spec_production_of(res),
    ));
}

/// Two turn ends in a row, starting from an empty store: the stored
/// amount is the double production rate, clamped to the capacity.
/// Clamping caps accumulation; it does not make turn ends idempotent.
pub proof fn lemma_turn_end_twice(p0: Planet, p1: Planet, p2: Planet, res: Resource)
    requires
        p0.wf(),
        generated_planet(p0, p1),
        generated_planet(p1, p2),
        p0.spec_storage(res).current_amount == 0,
    ensures
        ({
            let rate = p0.spec_production_of(res) as int;
            let cap = p0.spec_storage(res).capacity as int;
            p2.spec_storage(res).current_amount as int == if 2 * rate <= cap {
                2 * rate
            } else {
                cap
            }
        }),
{
    let sid = crate::building::spec_slot_of(crate::building::spec_storage_id(res));
    let prid = crate::building::spec_slot_of(crate::building::spec_producer_id(res));
    assert(p1.buildings@[sid] == crate::planet::spec_generated_slot(p0, sid));
    assert(p1.buildings@[prid] == crate::planet::spec_generated_slot(p0, prid));
    assert(p2.buildings@[sid] == crate::planet::spec_generated_slot(p1, sid));
    assert(p1.spec_production_of(res) == p0.spec_production_of(res));
    assert(p1.spec_storage(res) == crate::planet::spec_filled(
        p0.spec_storage(res),
        p0.spec_production_of(res),
    ));
    assert(p2.spec_storage(res) == crate::planet::spec_filled(
        p1.spec_storage(res),
        p1.spec_production_of(res),
    ));
}

/// The index of the first planet with the given name, or minus one.
pub open spec fn spec_planet_index(planets: Seq<Planet>, name: Seq<char>) -> int
    decreases planets.len(),
{
    if planets.len() == 0 {
        -1
    } else if planets[0].name@ == name {
        0
    } else {
        let rest = spec_planet_index(planets.drop_first(), name);
        if rest == -1 {
            -1
        } else {
            rest + 1
        }
    }
}

pub proof fn lemma_planet_index_bounds(planets: Seq<Planet>, name: Seq<char>)
    ensures
        spec_planet_index(planets, name) == -1 || (0 <= spec_planet_index(planets, name)
            < planets.len() && planets[spec_planet_index(planets, name)].name@ == name),
        spec_planet_index(planets, name) == -1 ==> forall|i: int|
            0 <= i < planets.len() ==> planets[i].name@ != name,
    decreases planets.len(),
{
    if planets.len() > 0 {
        lemma_planet_index_bounds(planets.drop_first(), name);
        let rest = spec_planet_index(planets.drop_first(), name);
        if planets[0].name@ != name {
            if rest == -1 {
                assert forall|i: int| 0 <= i < planets.len() implies planets[i].name@ != name by {
                    if i > 0 {
                        assert(planets.drop_first()[i - 1] == planets[i]);
                    }
                }
            } else {
                assert(planets.drop_first()[rest] == planets[rest + 1]);
            }
        }
    }
}

impl Player {
    /// Every planet is well-formed and planet names are unique keys.
    pub open spec fn wf(&self) -> bool {
        &&& forall|i: int| 0 <= i < self.planets@.len() ==> (#[trigger] self.planets@[i]).wf()
        &&& forall|i: int, j: int|
            0 <= i < j < self.planets@.len() ==> self.planets@[i].name@ != self.planets@[j].name@
    }

    /// A player starting with a single fresh planet. The configuration
    /// table must cover every building kind.
    pub fn new(name: &str, planet_name: &str, buildings_config: &BuildingsConfig) -> (p: Self)
        requires
            spec_first_missing(buildings_config.buildings@) == 9,
        ensures
            p.wf(),
            p.name@ == name@,
            p.planets@.len() == 1,
            p.planets@[0].name@ == planet_name@,
            p.planets@[0].wf(),
            forall|i: int|
                0 <= i < 9 ==> crate::planet::fresh_slot(
                    #[trigger] p.planets@[0].buildings@[i],
                    crate::building::spec_all_ids()[i],
                    buildings_config.buildings@,
                ),
    {
        let planet = match Planet::new(planet_name, buildings_config) {
            Ok(planet) => planet,
            Err(_) => {
                proof {
                    assert(false);
                }
                vstd::pervasive::unreached()
            },
        };
        let mut planets: Vec<Planet> = Vec::new();
        planets.push(planet);
        Player { name: name.to_owned(), planets }
    }

    pub fn get_name(&self) -> (r: &str)
        ensures
            r@ == self.name@,
    {
        self.name.as_str()
    }

    pub fn get_planets_count(&self) -> (n: usize)
        ensures
            n == self.planets@.len(),
    {
        self.planets.len()
    }

    /// The names of the owned planets, in storage order.
    pub fn get_planet_names(&self) -> (names: Vec<String>)
        ensures
            names@.len() == self.planets@.len(),
            forall|i: int|
                0 <= i < names@.len() ==> (#[trigger] names@[i])@ == self.planets@[i].name@,
    {
        let mut names: Vec<String> = Vec::new();
        let mut i: usize = 0;
        while i < self.planets.len()
            invariant
                i <= self.planets@.len(),
                names@.len() == i,
                forall|j: int|
                    0 <= j < i ==> (#[trigger] names@[j])@ == self.planets@[j].name@,
            decreases self.planets@.len() - i,
        {
            names.push(self.planets[i].name.clone());
            i = i + 1;
        }
        names
    }

    /// Generates resources on every owned planet.
    pub fn process_turn_end(&mut self) -> (r: Result<(), PlanetError>)
        requires
            old(self).wf(),
        ensures
            r is Ok,
            final(self).wf(),
            player_generated(*old(self), *final(self)),
    {
        let mut k: usize = 0;
        while k < self.planets.len()
            invariant
                old(self).wf(),
                self.name == old(self).name,
                self.planets@.len() == old(self).planets@.len(),
                k <= self.planets@.len(),
                forall|j: int|
                    0 <= j < k ==> generated_planet(
                        old(self).planets@[j],
                        #[trigger] self.planets@[j],
                    ),
                forall|j: int|
                    k <= j < self.planets@.len() ==> self.planets@[j] == old(self).planets@[j],
            decreases self.planets@.len() - k,
        {
            let mut planet = self.planets.remove(k);
            let r = planet.generate_resources();
            match r {
                Ok(()) => {},
                Err(e) => {
                    proof {
                        assert(false);
                    }
                },
            }
            self.planets.insert(k, planet);
            proof {
                assert forall|j: int|
                    k + 1 <= j < self.planets@.len() implies self.planets@[j] == old(
                    self,
                ).planets@[j] by {}
            }
            k = k + 1;
        }
        Ok(())
    }

    /// Keyed lookup of an owned planet by name.
    pub fn get_planet(&self, planet_name: &str) -> (r: Option<&Planet>)
        ensures
            ({
                let idx = spec_planet_index(self.planets@, planet_name@);
                match r {
                    Some(p) => idx != -1 && *p == self.planets@[idx],
                    None => idx == -1,
                }
            }),
    {
        let n = self.planets.len();
        let mut i: usize = 0;
        while i < n
            invariant
                n == self.planets@.len(),
                i <= n,
                forall|j: int| 0 <= j < i ==> self.planets@[j].name@ != planet_name@,
            decreases n - i,
        {
            if crate::text::str_eq(self.planets[i].name.as_str(), planet_name) {
                proof {
                    lemma_planet_index_first(self.planets@, planet_name@, i as int);
                }
                return Some(&self.planets[i]);
            }
            i = i + 1;
        }
        proof {
            lemma_planet_index_bounds(self.planets@, planet_name@);
        }
        None
    }
}

impl Player {
    /// Keyed mutable lookup of an owned planet by name.
    pub fn get_mut_planet(&mut self, planet_name: &str) -> (r: Option<&mut Planet>)
        ensures
            ({
                let idx = spec_planet_index(old(self).planets@, planet_name@);
                match r {
                    Some(p) => {
                        &&& idx != -1
                        &&& *p == old(self).planets@[idx]
                        &&& final(self).planets@ == old(self).planets@.update(idx, *final(p))
                        &&& final(self).name == old(self).name
                    },
                    None => idx == -1 && *final(self) == *old(self),
                }
            }),
    {
        let n = self.planets.len();
        let mut i: usize = 0;
        while i < n
            invariant
                *self == *old(self),
                n == self.planets@.len(),
                i <= n,
                forall|j: int| 0 <= j < i ==> self.planets@[j].name@ != planet_name@,
            decreases n - i,
        {
            if crate::text::str_eq(self.planets[i].name.as_str(), planet_name) {
                proof {
                    lemma_planet_index_first(self.planets@, planet_name@, i as int);
                }
                return Some(&mut self.planets[i]);
            }
            i = i + 1;
        }
        proof {
            lemma_planet_index_bounds(self.planets@, planet_name@);
        }
        None
    }
}

proof fn lemma_planet_index_first(planets: Seq<Planet>, name: Seq<char>, k: int)
    requires
        0 <= k < planets.len(),
        planets[k].name@ == name,
        forall|j: int| 0 <= j < k ==> planets[j].name@ != name,
    ensures
        spec_planet_index(planets, name) == k,
    decreases planets.len(),
{
    if k > 0 {
        lemma_planet_index_first(planets.drop_first(), name, k - 1);
    }
}

} // verus!
