//! The command execution engine: it owns the players, the turn counter
//! and the run flag, resolves raw input through the command registry,
//! and applies the resulting command to the game state.

use vstd::prelude::*;
use vstd::string::StringExecFns;

use crate::building::{spec_all_ids, spec_slot_of, spec_type_key, Building, BuildingTypeId};
use crate::command::{
    parse_err_message, spec_parse, CommandError, CommandExecution, CommandRegistry, ParsedKind,
};
use crate::config::{
    spec_config_of, spec_has_config, BuildingsConfig, BuildingsConfigError,
};
use crate::planet::{
    build_outcome, lemma_build_outcome_config_eq, spec_first_missing, PlanetError, PlanetStatus,
};
use crate::player::{player_generated, spec_planet_index, Player};
use crate::text::{eq_ignore_ascii_case, lower, spec_decimal, str_eq, u64_to_string};
use crate::turn::Turn;

verus! {

#[derive(Debug)]
pub enum GameCoreError {
    CommandError(CommandError),
    BuildingConfigError(BuildingsConfigError),
    PlanetError(PlanetError),
}

/// The index of the first player with the given name, or minus one.
pub open spec fn spec_player_slot(players: Seq<Player>, name: Seq<char>) -> int
    decreases players.len(),
{
    if players.len() == 0 {
        -1
    } else if players[0].name@ == name {
        0
    } else {
        let rest = spec_player_slot(players.drop_first(), name);
        if rest == -1 {
            -1
        } else {
            rest + 1
        }
    }
}

pub proof fn lemma_player_slot_bounds(players: Seq<Player>, name: Seq<char>)
    ensures
        spec_player_slot(players, name) == -1 || (0 <= spec_player_slot(players, name)
            < players.len() && players[spec_player_slot(players, name)].name@ == name),
        spec_player_slot(players, name) == -1 ==> forall|i: int|
            0 <= i < players.len() ==> players[i].name@ != name,
    decreases players.len(),
{
    if players.len() > 0 {
        lemma_player_slot_bounds(players.drop_first(), name);
        let rest = spec_player_slot(players.drop_first(), name);
        if players[0].name@ != name {
            if rest == -1 {
                assert forall|i: int| 0 <= i < players.len() implies players[i].name@ != name by {
                    if i > 0 {
                        assert(players.drop_first()[i - 1] == players[i]);
                    }
                }
            } else {
                assert(players.drop_first()[rest] == players[rest + 1]);
            }
        }
    }
}

proof fn lemma_player_slot_first(players: Seq<Player>, name: Seq<char>, k: int)
    requires
        0 <= k < players.len(),
        players[k].name@ == name,
        forall|j: int| 0 <= j < k ==> players[j].name@ != name,
    ensures
        spec_player_slot(players, name) == k,
    decreases players.len(),
{
    if k > 0 {
        lemma_player_slot_first(players.drop_first(), name, k - 1);
    }
}

/// The building kind whose table key matches the given word up to
/// ASCII case, tried in the fixed enumeration order.
pub open spec fn spec_resolve_building(name: Seq<char>) -> Option<BuildingTypeId> {
    if lower(spec_type_key(BuildingTypeId::CommandCenter)) == lower(name) {
        Some(BuildingTypeId::CommandCenter)
    } else if lower(spec_type_key(BuildingTypeId::OrbitalShipyard)) == lower(name) {
        Some(BuildingTypeId::OrbitalShipyard)
    } else if lower(spec_type_key(BuildingTypeId::ResearchLab)) == lower(name) {
        Some(BuildingTypeId::ResearchLab)
    } else if lower(spec_type_key(BuildingTypeId::FusionReactor)) == lower(name) {
        Some(BuildingTypeId::FusionReactor)
    } else if lower(spec_type_key(BuildingTypeId::GasExtractor)) == lower(name) {
        Some(BuildingTypeId::GasExtractor)
    } else if lower(spec_type_key(BuildingTypeId::MineralMine)) == lower(name) {
        Some(BuildingTypeId::MineralMine)
    } else if lower(spec_type_key(BuildingTypeId::BatteryArray)) == lower(name) {
        Some(BuildingTypeId::BatteryArray)
    } else if lower(spec_type_key(BuildingTypeId::GasTank)) == lower(name) {
        Some(BuildingTypeId::GasTank)
    } else if lower(spec_type_key(BuildingTypeId::MineralSilo)) == lower(name) {
        Some(BuildingTypeId::MineralSilo)
    } else {
        None
    }
}

/// Case-insensitive resolution of a word against the building kinds.
fn resolve_building_id(building_name: &str) -> (r: Option<BuildingTypeId>)
    ensures
        r == spec_resolve_building(building_name@),
{
    let ids = BuildingTypeId::all();
    let mut i: usize = 0;
    while i < ids.len()
        invariant
            ids@ == spec_all_ids(),
            i <= 9,
            forall|j: int|
                0 <= j < i ==> lower(spec_type_key(spec_all_ids()[j])) != lower(building_name@),
        decreases 9 - i,
    {
        let id = ids[i];
        if eq_ignore_ascii_case(id.get_name(), building_name) {
            return Some(id);
        }
        i = i + 1;
    }
    None
}

/// Replacing one planet of a well-formed player with a well-formed
/// planet of the same name keeps the player well-formed.
proof fn lemma_player_update_keeps_wf(before: Player, after: Player, plidx: int)
    requires
        before.wf(),
        0 <= plidx < before.planets@.len(),
        after.planets@ == before.planets@.update(plidx, after.planets@[plidx]),
        after.planets@[plidx].wf(),
        after.planets@[plidx].name@ == before.planets@[plidx].name@,
    ensures
        after.wf(),
{
    assert forall|a: int| 0 <= a < after.planets@.len() implies (#[trigger] after.planets@[a]).wf()
    by {
        if a != plidx {
            assert(after.planets@[a] == before.planets@[a]);
        }
    }
    assert forall|a: int, b: int| 0 <= a < b < after.planets@.len() implies after.planets@[a].name@
        != after.planets@[b].name@ by {
        if a != plidx {
            assert(after.planets@[a] == before.planets@[a]);
        }
        if b != plidx {
            assert(after.planets@[b] == before.planets@[b]);
        }
    }
}

/// Replacing one player of a well-formed roster with a well-formed
/// player of the same name keeps the roster well-formed.
proof fn lemma_players_update_keeps_wf(ps: Seq<Player>, qs: Seq<Player>, i: int)
    requires
        forall|a: int| 0 <= a < ps.len() ==> (#[trigger] ps[a]).wf(),
        forall|a: int, b: int| 0 <= a < b < ps.len() ==> ps[a].name@ != ps[b].name@,
        0 <= i < ps.len(),
        qs == ps.update(i, qs[i]),
        qs[i].wf(),
        qs[i].name@ == ps[i].name@,
    ensures
        forall|a: int| 0 <= a < qs.len() ==> (#[trigger] qs[a]).wf(),
        forall|a: int, b: int| 0 <= a < b < qs.len() ==> qs[a].name@ != qs[b].name@,
{
    assert forall|a: int| 0 <= a < qs.len() implies (#[trigger] qs[a]).wf() by {
        if a != i {
            assert(qs[a] == ps[a]);
        }
    }
    assert forall|a: int, b: int| 0 <= a < b < qs.len() implies qs[a].name@ != qs[b].name@ by {
        if a != i {
            assert(qs[a] == ps[a]);
        }
        if b != i {
            assert(qs[b] == ps[b]);
        }
    }
}

/// What never changes between two engine states: the run flag, the
/// turn counter and the players.
pub open spec fn same_state(a: GameCore, b: GameCore) -> bool {
    &&& b.is_running == a.is_running
    &&& b.turn == a.turn
    &&& b.players@ == a.players@
}

pub struct GameCore {
    pub command_registry: CommandRegistry,
    pub buildings_config: BuildingsConfig,
    pub turn: Turn,
    pub current_player: String,
    pub players: Vec<Player>,
    pub is_running: bool,
}

impl GameCore {
    /// Every player is well-formed and player names are unique keys.
    pub open spec fn wf(&self) -> bool {
        &&& forall|i: int| 0 <= i < self.players@.len() ==> (#[trigger] self.players@[i]).wf()
        &&& forall|i: int, j: int|
            0 <= i < j < self.players@.len() ==> self.players@[i].name@ != self.players@[j].name@
    }

    /// A fresh engine: turn one, running, a single player with a single
    /// planet, everything at level zero. The configuration table must
    /// cover every building kind.
    pub fn new(command_registry: CommandRegistry, buildings_config: BuildingsConfig) -> (r: Result<
        Self,
        GameCoreError,
    >)
        requires
            spec_first_missing(buildings_config.buildings@) == 9,
        ensures
            r matches Ok(g) && {
                &&& g.wf()
                &&& g.command_registry == command_registry
                &&& g.buildings_config == buildings_config
                &&& g.turn.turn_number == 1
                &&& g.current_player@ == "Player 1"@
                &&& g.is_running
                &&& g.players@.len() == 1
                &&& g.players@[0].name@ == "Player 1"@
                &&& g.players@[0].planets@.len() == 1
                &&& g.players@[0].planets@[0].name@ == "Planet1"@
                &&& g.players@[0].planets@[0].wf()
                &&& forall|i: int|
                    0 <= i < 9 ==> crate::planet::fresh_slot(
                        #[trigger] g.players@[0].planets@[0].buildings@[i],
                        spec_all_ids()[i],
                        buildings_config.buildings@,
                    )
            },
    {
        let player1 = Player::new("Player 1", "Planet1", &buildings_config);
        let mut players: Vec<Player> = Vec::new();
        players.push(player1);
        Ok(
            GameCore {
                command_registry,
                buildings_config,
                turn: Turn::new(1),
                current_player: "Player 1".to_owned(),
                players,
                is_running: true,
            },
        )
    }

    pub fn is_running(&self) -> (r: bool)
        ensures
            r == self.is_running,
    {
        self.is_running
    }

    pub fn get_current_turn(&self) -> (r: u32)
        ensures
            r == self.turn.turn_number,
    {
        self.turn.get_turn_number()
    }

    pub fn get_current_player_name(&self) -> (r: String)
        ensures
            r@ == self.current_player@,
    {
        self.current_player.clone()
    }

    /// The index of the current player in the player list.
    fn current_player_index(&self) -> (r: Option<usize>)
        ensures
            ({
                let idx = spec_player_slot(self.players@, self.current_player@);
                match r {
                    Some(i) => idx == i && i < self.players@.len() && self.players@[i as int].name@
                        == self.current_player@,
                    None => idx == -1,
                }
            }),
    {
        let n = self.players.len();
        let mut i: usize = 0;
        while i < n
            invariant
                n == self.players@.len(),
                i <= n,
                forall|j: int| 0 <= j < i ==> self.players@[j].name@ != self.current_player@,
            decreases n - i,
        {
            if str_eq(self.players[i].name.as_str(), self.current_player.as_str()) {
                proof {
                    lemma_player_slot_first(self.players@, self.current_player@, i as int);
                }
                return Some(i);
            }
            i = i + 1;
        }
        proof {
            lemma_player_slot_bounds(self.players@, self.current_player@);
        }
        None
    }

    /// The current player's planet names; empty when the current player
    /// is gone.
    pub fn get_current_player_planet_names(&self) -> (names: Vec<String>)
        ensures
            ({
                let idx = spec_player_slot(self.players@, self.current_player@);
                if idx == -1 {
                    names@.len() == 0
                } else {
                    names@.len() == self.players@[idx].planets@.len() && forall|i: int|
                        0 <= i < names@.len() ==> (#[trigger] names@[i])@
                            == self.players@[idx].planets@[i].name@
                }
            }),
    {
        match self.current_player_index() {
            Some(i) => self.players[i].get_planet_names(),
            None => Vec::new(),
        }
    }

    /// A display snapshot of one of the current player's planets.
    pub fn get_current_player_planet_status(&self, planet_name: &str) -> (r: Option<PlanetStatus>)
        requires
            self.wf(),
        ensures
            ({
                let idx = spec_player_slot(self.players@, self.current_player@);
                if idx == -1 {
                    r is None
                } else {
                    let player = self.players@[idx];
                    let plidx = spec_planet_index(player.planets@, planet_name@);
                    if plidx == -1 {
                        r is None
                    } else {
                        r matches Some(st) && player.planets@[plidx].status_of(
                            player.planets@.len() as usize,
                            st,
                        )
                    }
                }
            }),
    {
        let i = match self.current_player_index() {
            Some(i) => i,
            None => {
                return None;
            },
        };
        let player = &self.players[i];
        let count = player.get_planets_count();
        match player.get_planet(planet_name) {
            Some(planet) => {
                proof {
                    assert(self.players@[i as int].wf());
                    crate::player::lemma_planet_index_bounds(player.planets@, planet_name@);
                    let ghost plidx = spec_planet_index(player.planets@, planet_name@);
                    assert(player.planets@[plidx].wf());
                }
                Some(planet.get_status(count))
            },
            None => None,
        }
    }

    /// How many planets the current player owns; zero when the current
    /// player is gone.
    pub fn get_planet_count(&self) -> (n: usize)
        ensures
            ({
                let idx = spec_player_slot(self.players@, self.current_player@);
                if idx == -1 {
                    n == 0
                } else {
                    n == self.players@[idx].planets@.len()
                }
            }),
    {
        match self.current_player_index() {
            Some(i) => self.players[i].get_planets_count(),
            None => 0,
        }
    }

    /// Removes the player registered under the given name, if any.
    pub fn remove_player(&mut self, player_name: &str)
        requires
            old(self).wf(),
        ensures
            final(self).wf(),
            final(self).command_registry == old(self).command_registry,
            final(self).buildings_config == old(self).buildings_config,
            final(self).current_player == old(self).current_player,
            final(self).turn == old(self).turn,
            final(self).is_running == old(self).is_running,
            ({
                let idx = spec_player_slot(old(self).players@, player_name@);
                if idx == -1 {
                    final(self).players@ == old(self).players@
                } else {
                    final(self).players@ == old(self).players@.remove(idx)
                }
            }),
    {
        let n = self.players.len();
        let mut i: usize = 0;
        while i < n
            invariant
                *self == *old(self),
                old(self).wf(),
                n == self.players@.len(),
                i <= n,
                forall|j: int| 0 <= j < i ==> self.players@[j].name@ != player_name@,
            decreases n - i,
        {
            if str_eq(self.players[i].name.as_str(), player_name) {
                proof {
                    lemma_player_slot_first(self.players@, player_name@, i as int);
                }
                self.players.remove(i);
                proof {
                    let ghost ps = old(self).players@;
                    let ghost q = ps.remove(i as int);
                    ps.remove_ensures(i as int);
                    assert forall|a: int| 0 <= a < q.len() implies (#[trigger] q[a]).wf() by {
                        if a < i {
                            assert(q[a] == ps[a]);
                        } else {
                            assert(q[a] == ps[a + 1]);
                        }
                    }
                    assert forall|a: int, b: int| 0 <= a < b < q.len() implies q[a].name@
                        != q[b].name@ by {
                        if a < i {
                            assert(q[a] == ps[a]);
                        } else {
                            assert(q[a] == ps[a + 1]);
                        }
                        if b < i {
                            assert(q[b] == ps[b]);
                        } else {
                            assert(q[b] == ps[b + 1]);
                        }
                    }
                }
                return ;
            }
            i = i + 1;
        }
        proof {
            lemma_player_slot_bounds(self.players@, player_name@);
        }
    }

    /// Resolves raw input and applies the resulting command: `build`
    /// upgrades a building on one of the current player's planets,
    /// `endturn` generates resources and advances the turn counter,
    /// `quit` clears the run flag, `help` is acknowledged, and every
    /// rejection is surfaced as a one-line error. Ending a turn never
    /// rotates the active player, even when several are registered.
    pub fn execute_command(&mut self, command: &str) -> (r: Result<Option<String>, GameCoreError>)
        requires
            old(self).wf(),
            old(self).turn.turn_number < u32::MAX,
        ensures
            final(self).wf(),
            final(self).command_registry == old(self).command_registry,
            final(self).buildings_config == old(self).buildings_config,
            final(self).current_player == old(self).current_player,
            ({
                let pk = spec_parse(old(self).command_registry.definitions@, command@);
                let pidx = spec_player_slot(old(self).players@, old(self).current_player@);
                let table = old(self).buildings_config.buildings@;
                match pk {
                    ParsedKind::QuitCmd { .. } => {
                        &&& r matches Ok(Some(s)) && s@ == "Quit command recognized."@
                        &&& !final(self).is_running
                        &&& final(self).turn == old(self).turn
                        &&& final(self).players@ == old(self).players@
                    },
                    ParsedKind::HelpCmd { .. } => {
                        &&& r matches Ok(Some(s)) && s@ == "Help command recognized."@
                        &&& same_state(*old(self), *final(self))
                    },
                    ParsedKind::OtherCmd { .. } => {
                        &&& r matches Err(GameCoreError::CommandError(e)) && e.message@
                            == "Parsed command is unknown internally."@
                        &&& same_state(*old(self), *final(self))
                    },
                    ParsedKind::EndTurnCmd { .. } => {
                        if pidx == -1 {
                            &&& r matches Err(GameCoreError::CommandError(e)) && e.message@
                                == "Current player not found."@
                            &&& same_state(*old(self), *final(self))
                        } else {
                            &&& r matches Ok(Some(s)) && s@ == "Turn "@ + spec_decimal(
                                old(self).turn.turn_number as int,
                            ) + " ended."@
                            &&& final(self).turn.turn_number == old(self).turn.turn_number + 1
                            &&& final(self).is_running == old(self).is_running
                            &&& final(self).players@.len() == old(self).players@.len()
                            &&& forall|j: int|
                                0 <= j < old(self).players@.len() && j != pidx ==> #[trigger] (
                                final(self).players@[j]) == old(self).players@[j]
                            &&& player_generated(
                                old(self).players@[pidx],
                                final(self).players@[pidx],
                            )
                        }
                    },
                    ParsedKind::BuildCmd { name, building, planet } => {
                        if pidx == -1 {
                            &&& r matches Err(GameCoreError::CommandError(e)) && e.message@
                                == "Current player not found."@
                            &&& same_state(*old(self), *final(self))
                        } else {
                            let pl = old(self).players@[pidx];
                            let plidx = spec_planet_index(pl.planets@, planet);
                            if plidx == -1 {
                                &&& r matches Err(GameCoreError::CommandError(e)) && e.message@
                                    == "Planet '"@ + planet + "' not found."@
                                &&& same_state(*old(self), *final(self))
                            } else {
                                match spec_resolve_building(building) {
                                    None => {
                                        &&& r matches Err(GameCoreError::CommandError(e))
                                            && e.message@ == "Building '"@ + building
                                            + "' not recognized."@
                                        &&& same_state(*old(self), *final(self))
                                    },
                                    Some(bid) => {
                                        let key = spec_type_key(bid);
                                        if !spec_has_config(table, key) {
                                            &&& r matches Err(GameCoreError::BuildingConfigError(
                                                BuildingsConfigError::BuildingNotFound(m),
                                            )) && m@ == "Building '"@ + key
                                                + "' not found in config."@
                                            &&& same_state(*old(self), *final(self))
                                        } else {
                                            let cfg = spec_config_of(table, key);
                                            let before = pl.planets@[plidx];
                                            if before.spec_build_ok(bid, cfg) {
                                                &&& r matches Ok(Some(s)) && s@
                                                    == "Build command successful for "@ + building
                                                    + " on "@ + planet + "."@
                                                &&& final(self).is_running == old(self).is_running
                                                &&& final(self).turn == old(self).turn
                                                &&& final(self).players@.len() == old(self)
                                                    .players@.len()
                                                &&& forall|j: int|
                                                    0 <= j < old(self).players@.len() && j != pidx
                                                        ==> #[trigger] (final(self).players@[j])
                                                        == old(self).players@[j]
                                                &&& final(self).players@[pidx].name == pl.name
                                                &&& final(self).players@[pidx].planets@.len()
                                                    == pl.planets@.len()
                                                &&& forall|k: int|
                                                    0 <= k < pl.planets@.len() && k != plidx
                                                        ==> final(self).players@[pidx].planets@[k]
                                                        == pl.planets@[k]
                                                &&& ({
                                                    let after =
                                                        final(self).players@[pidx].planets@[plidx];
                                                    &&& after.name == before.name
                                                    &&& after.wf()
                                                    &&& after.buildings@
                                                        == before.buildings@.update(
                                                        spec_slot_of(bid),
                                                        before.spec_building(bid).spec_upgraded(),
                                                    )
                                                })
                                            } else {
                                                &&& r matches Err(GameCoreError::PlanetError(e))
                                                    && build_outcome(
                                                    before,
                                                    bid,
                                                    cfg,
                                                    Err::<(), PlanetError>(e),
                                                )
                                                &&& final(self).is_running == old(self).is_running
                                                &&& final(self).turn == old(self).turn
                                                &&& final(self).players@.len() == old(self)
                                                    .players@.len()
                                                &&& forall|j: int|
                                                    0 <= j < old(self).players@.len() && j != pidx
                                                        ==> #[trigger] (final(self).players@[j])
                                                        == old(self).players@[j]
                                                &&& final(self).players@[pidx].name == pl.name
                                                &&& final(self).players@[pidx].planets@.len()
                                                    == pl.planets@.len()
                                                &&& forall|k: int|
                                                    0 <= k < pl.planets@.len() && k != plidx
                                                        ==> final(self).players@[pidx].planets@[k]
                                                        == pl.planets@[k]
                                                &&& final(self).players@[pidx].planets@[plidx].name
                                                    == before.name
                                                &&& final(self)
                                                    .players@[pidx].planets@[plidx].buildings@
                                                    == before.buildings@
                                            }
                                        }
                                    },
                                }
                            }
                        }
                    },
                    _ => {
                        &&& r matches Err(GameCoreError::CommandError(e)) && e.message@
                            == parse_err_message(pk)
                        &&& same_state(*old(self), *final(self))
                    },
                }
            }),
    {
        let parsed = match CommandExecution::parse(&self.command_registry, command) {
            Ok(c) => c,
            Err(e) => {
                return Err(GameCoreError::CommandError(e));
            },
        };
        match parsed {
            CommandExecution::Build(build_command) => {
                let pidx = match self.current_player_index() {
                    Some(i) => i,
                    None => {
                        return Err(
                            GameCoreError::CommandError(
                                CommandError::new("Current player not found."),
                            ),
                        );
                    },
                };
                let planet_found = match self.players[pidx].get_planet(build_command.get_planet()) {
                    Some(_) => true,
                    None => false,
                };
                if !planet_found {
                    let msg = "Planet '".to_owned().concat(build_command.get_planet()).concat(
                        "' not found.",
                    );
                    return Err(GameCoreError::CommandError(CommandError { message: msg }));
                }
                let target_building_id = match resolve_building_id(build_command.get_building()) {
                    Some(id) => id,
                    None => {
                        let msg = "Building '".to_owned().concat(build_command.get_building())
                            .concat("' not recognized.");
                        return Err(GameCoreError::CommandError(CommandError { message: msg }));
                    },
                };
                let building_config = match self.buildings_config.get(
                    target_building_id.get_name(),
                ) {
                    Some(c) => c.clone(),
                    None => {
                        let msg = "Building '".to_owned().concat(target_building_id.get_name())
                            .concat("' not found in config.");
                        return Err(
                            GameCoreError::BuildingConfigError(
                                BuildingsConfigError::BuildingNotFound(msg),
                            ),
                        );
                    },
                };
                let ghost before_players = self.players@;
                let ghost plidx = spec_planet_index(
                    self.players@[pidx as int].planets@,
                    build_command.planet@,
                );
                proof {
                    assert(before_players == old(self).players@);
                    assert(old(self).players@[pidx as int].wf());
                    crate::player::lemma_planet_index_bounds(
                        before_players[pidx as int].planets@,
                        build_command.planet@,
                    );
                    assert(before_players[pidx as int].planets@[plidx].wf());
                }
                let player = &mut self.players[pidx];
                let planet = match player.get_mut_planet(build_command.get_planet()) {
                    Some(p) => p,
                    None => {
                        proof {
                            assert(false);
                        }
                        vstd::pervasive::unreached()
                    },
                };
                let build_r = planet.build(target_building_id, &building_config);
                proof {
                    lemma_build_outcome_config_eq(
                        before_players[pidx as int].planets@[plidx],
                        target_building_id,
                        building_config,
                        spec_config_of(
                            old(self).buildings_config.buildings@,
                            spec_type_key(target_building_id),
                        ),
                        build_r,
                    );
                }
                match build_r {
                    Ok(()) => {
                        proof {
                            lemma_player_update_keeps_wf(
                                before_players[pidx as int],
                                self.players@[pidx as int],
                                plidx,
                            );
                            lemma_players_update_keeps_wf(
                                before_players,
                                self.players@,
                                pidx as int,
                            );
                        }
                        let msg = "Build command successful for ".to_owned().concat(
                            build_command.get_building(),
                        ).concat(" on ").concat(build_command.get_planet()).concat(".");
                        Ok(Some(msg))
                    },
                    Err(e) => {
                        proof {
                            lemma_player_update_keeps_wf(
                                before_players[pidx as int],
                                self.players@[pidx as int],
                                plidx,
                            );
                            lemma_players_update_keeps_wf(
                                before_players,
                                self.players@,
                                pidx as int,
                            );
                        }
                        Err(GameCoreError::PlanetError(e))
                    },
                }
            },
            CommandExecution::EndTurn(_end_turn_command) => {
                let pidx = match self.current_player_index() {
                    Some(i) => i,
                    None => {
                        return Err(
                            GameCoreError::CommandError(
                                CommandError::new("Current player not found."),
                            ),
                        );
                    },
                };
                let ghost before_players = self.players@;
                proof {
                    assert(old(self).players@[pidx as int].wf());
                }
                let player = &mut self.players[pidx];
                let turn_result = player.process_turn_end();
                match turn_result {
                    Ok(()) => {},
                    Err(_) => {
                        proof {
                            assert(false);
                        }
                    },
                }
                proof {
                    lemma_players_update_keeps_wf(before_players, self.players@, pidx as int);
                }
                let turn_number = self.turn.get_turn_number();
                self.turn.next_turn();
                let msg = "Turn ".to_owned().concat(u64_to_string(turn_number as u64).as_str())
                    .concat(" ended.");
                Ok(Some(msg))
            },
            CommandExecution::Quit(_quit_command) => {
                self.is_running = false;
                Ok(Some("Quit command recognized.".to_owned()))
            },
            CommandExecution::Help(_help_command) => {
                Ok(Some("Help command recognized.".to_owned()))
            },
            CommandExecution::UnknownInternal(_parsed_command) => {
                Err(
                    GameCoreError::CommandError(
                        CommandError::new("Parsed command is unknown internally."),
                    ),
                )
            },
        }
    }
}

} // verus!
