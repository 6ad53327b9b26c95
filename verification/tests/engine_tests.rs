use colony_core::building::BuildingTypeId;
use colony_core::command::{
    CommandDefinition, CommandError, CommandExecution, CommandRegistry,
};
use colony_core::config::{
    BuildingConfig, BuildingTime, BuildingsConfig, BuildingsConfigError, ProductionInfo,
    StorageInfo, UpgradeCost,
};
use colony_core::game_core::{GameCore, GameCoreError};
use colony_core::planet::PlanetError;
use colony_core::resource::Resource;
use colony_core::text::{eq_ignore_ascii_case, str_eq, to_ascii_lower, tokenize, u64_to_string};

fn def(name: &str, expected_args: usize) -> CommandDefinition {
    CommandDefinition {
        name: name.to_string(),
        aliases: Vec::new(),
        description: format!("the {} command", name),
        expected_args,
        arg_hints: Vec::new(),
    }
}

fn registry() -> CommandRegistry {
    CommandRegistry::new(vec![
        ("help".to_string(), vec![def("help", 0)]),
        ("build".to_string(), vec![def("build", 2)]),
        ("endturn".to_string(), vec![def("endturn", 0)]),
        ("end".to_string(), vec![def("endturn", 0)]),
        ("quit".to_string(), vec![def("quit", 0)]),
        ("status".to_string(), vec![def("status", 0)]),
    ])
}

fn entry(name: &str, max_level: u8) -> (String, BuildingConfig) {
    let levels = max_level as usize;
    (
        name.to_string(),
        BuildingConfig {
            name: name.to_string(),
            max_level,
            upgrade_cost: UpgradeCost {
                energy: vec![0; levels],
                minerals: vec![0; levels],
                gas: vec![0; levels],
            },
            building_time: BuildingTime { time: vec![0; levels] },
            production: None,
            storage: None,
        },
    )
}

fn table(command_center_max: u8) -> BuildingsConfig {
    let mut buildings = Vec::new();
    buildings.push(entry("CommandCenter", command_center_max));
    buildings.push(entry("OrbitalShipyard", 3));
    buildings.push(entry("ResearchLab", 3));
    let mut reactor = entry("FusionReactor", 3);
    reactor.1.production = Some(ProductionInfo {
        resource: Resource::Energy,
        rate_per_level: vec![0, 15, 30],
    });
    buildings.push(reactor);
    let mut extractor = entry("GasExtractor", 3);
    extractor.1.production = Some(ProductionInfo {
        resource: Resource::Gas,
        rate_per_level: vec![0, 8, 16],
    });
    buildings.push(extractor);
    let mut mine = entry("MineralMine", 3);
    mine.1.production = Some(ProductionInfo {
        resource: Resource::Minerals,
        rate_per_level: vec![0, 10, 25],
    });
    buildings.push(mine);
    let mut battery = entry("BatteryArray", 3);
    battery.1.storage = Some(StorageInfo {
        resource: Resource::Energy,
        capacity_per_level: vec![100, 1000, 10000],
    });
    buildings.push(battery);
    let mut tank = entry("GasTank", 3);
    tank.1.storage = Some(StorageInfo {
        resource: Resource::Gas,
        capacity_per_level: vec![100, 800, 8000],
    });
    buildings.push(tank);
    let mut silo = entry("MineralSilo", 3);
    silo.1.storage = Some(StorageInfo {
        resource: Resource::Minerals,
        capacity_per_level: vec![100, 1000, 5000],
    });
    buildings.push(silo);
    BuildingsConfig { buildings }
}

fn engine(command_center_max: u8) -> GameCore {
    GameCore::new(registry(), table(command_center_max)).unwrap()
}

fn command_error_message(r: Result<Option<String>, GameCoreError>) -> String {
    match r {
        Err(GameCoreError::CommandError(CommandError { message })) => message,
        other => panic!("expected a command error, got {:?}", other),
    }
}

#[test]
fn text_helpers_round_values_exactly() {
    assert_eq!(u64_to_string(0), "0");
    assert_eq!(u64_to_string(7), "7");
    assert_eq!(u64_to_string(42), "42");
    assert_eq!(u64_to_string(90210), "90210");
    assert_eq!(to_ascii_lower("MineralMine"), "mineralmine");
    assert_eq!(to_ascii_lower("BUILD x 7!"), "build x 7!");
    assert!(str_eq("abc", "abc"));
    assert!(!str_eq("abc", "abd"));
    assert!(!str_eq("abc", "abcd"));
    assert!(eq_ignore_ascii_case("MineralSilo", "mineralsilo"));
    assert!(!eq_ignore_ascii_case("MineralSilo", "mineralsil"));
    assert_eq!(tokenize("  build   mine  p1 "), vec!["build", "mine", "p1"]);
    assert_eq!(tokenize("\tquit\n"), vec!["quit"]);
    assert_eq!(tokenize("   "), Vec::<String>::new());
}

#[test]
fn parse_rejects_empty_and_unknown_input() {
    let registry = registry();
    match CommandExecution::parse(&registry, "   ") {
        Err(e) => assert_eq!(e.message, "No command provided. Type 'help' for options."),
        other => panic!("expected an error, got {:?}", other),
    }
    match CommandExecution::parse(&registry, "launch now") {
        Err(e) => assert_eq!(
            e.message,
            "Unknown command: 'launch'. Type 'help' for available commands."
        ),
        other => panic!("expected an error, got {:?}", other),
    }
}

#[test]
fn parse_rejects_wrong_argument_count() {
    let registry = registry();
    match CommandExecution::parse(&registry, "build mineralmine") {
        Err(e) => assert_eq!(
            e.message,
            "Error: Wrong number of arguments for command 'build'. Got 1, expected 2."
        ),
        other => panic!("expected an error, got {:?}", other),
    }
}

#[test]
fn parse_rejects_arguments_the_command_refuses() {
    // Definitions whose declared argument counts clash with what the
    // typed commands accept: the declaration admits the words, the
    // command itself then refuses them.
    let odd = CommandRegistry::new(vec![
        ("build".to_string(), vec![def("build", 1)]),
        ("quit".to_string(), vec![def("quit", 1)]),
        ("endturn".to_string(), vec![def("endturn", 2)]),
    ]);
    match CommandExecution::parse(&odd, "build mineralmine") {
        Err(e) => assert_eq!(e.message, "Not enough arguments for build command."),
        other => panic!("expected an error, got {:?}", other),
    }
    match CommandExecution::parse(&odd, "quit now") {
        Err(e) => assert_eq!(e.message, "Quit command does not accept any arguments."),
        other => panic!("expected an error, got {:?}", other),
    }
    match CommandExecution::parse(&odd, "endturn a b") {
        Err(e) => assert_eq!(e.message, "End turn command does not accept any arguments."),
        other => panic!("expected an error, got {:?}", other),
    }
}

#[test]
fn parse_produces_typed_commands() {
    let registry = registry();
    match CommandExecution::parse(&registry, "BUILD MineralMine Planet1") {
        Ok(CommandExecution::Build(b)) => {
            assert_eq!(b.get_building(), "MineralMine");
            assert_eq!(b.get_planet(), "Planet1");
        }
        other => panic!("expected a build command, got {:?}", other),
    }
    assert!(matches!(
        CommandExecution::parse(&registry, "endturn"),
        Ok(CommandExecution::EndTurn(_))
    ));
    // The typed word itself decides the dispatch, so an alias resolves
    // to its definition but lands on the internal-mismatch path.
    assert!(matches!(
        CommandExecution::parse(&registry, "end"),
        Ok(CommandExecution::UnknownInternal(_))
    ));
    assert!(matches!(
        CommandExecution::parse(&registry, "Quit"),
        Ok(CommandExecution::Quit(_))
    ));
    assert!(matches!(
        CommandExecution::parse(&registry, "help"),
        Ok(CommandExecution::Help(_))
    ));
    assert!(matches!(
        CommandExecution::parse(&registry, "status"),
        Ok(CommandExecution::UnknownInternal(_))
    ));
}

#[test]
fn registry_lists_every_definition_and_parses_directly() {
    let registry = registry();
    let all = registry.get_all_command_definitions();
    assert_eq!(all.len(), 6);
    assert_eq!(all[0].name, "help");
    assert_eq!(all[1].name, "build");
    assert_eq!(all[1].expected_args, 2);
    assert!(registry.get_command_definitions("quit").is_some());
    assert!(registry.get_command_definitions("warp").is_none());
    assert!(matches!(
        registry.parse("quit"),
        Ok(CommandExecution::Quit(_))
    ));
}

#[test]
fn engine_starts_running_at_turn_one() {
    let core = engine(3);
    assert!(core.is_running());
    assert_eq!(core.get_current_turn(), 1);
    assert_eq!(core.get_current_player_name(), "Player 1");
    assert_eq!(core.get_current_player_planet_names(), vec!["Planet1".to_string()]);
    assert_eq!(core.get_planet_count(), 1);
    let status = core.get_current_player_planet_status("Planet1").unwrap();
    assert_eq!(status.planet_name, "Planet1");
    assert_eq!(status.buildings.len(), 9);
    assert!(core.get_current_player_planet_status("Nowhere").is_none());
}

#[test]
fn quit_clears_the_running_flag() {
    let mut core = engine(3);
    let r = core.execute_command("quit");
    assert_eq!(r.unwrap(), Some("Quit command recognized.".to_string()));
    assert!(!core.is_running());
}

#[test]
fn help_is_acknowledged() {
    let mut core = engine(3);
    assert_eq!(
        core.execute_command("help").unwrap(),
        Some("Help command recognized.".to_string())
    );
    assert!(core.is_running());
}

#[test]
fn end_turn_advances_the_counter_and_reports_the_old_turn() {
    let mut core = engine(3);
    assert_eq!(core.execute_command("endturn").unwrap(), Some("Turn 1 ended.".to_string()));
    assert_eq!(core.get_current_turn(), 2);
    assert_eq!(core.execute_command("ENDTURN").unwrap(), Some("Turn 2 ended.".to_string()));
    assert_eq!(core.get_current_turn(), 3);
}

#[test]
fn build_at_max_level_leaves_the_turn_counter_alone() {
    // The command center starts at level zero with a maximum of zero:
    // building it reports the max-level error and nothing advances.
    let mut core = engine(0);
    match core.execute_command("build commandcenter Planet1") {
        Err(GameCoreError::PlanetError(PlanetError::BuildingError(
            colony_core::building::BuildingError::MaxLevelReached { current: 0, max: 0 },
        ))) => {}
        other => panic!("expected the max-level error, got {:?}", other),
    }
    assert_eq!(core.get_current_turn(), 1);
}

#[test]
fn build_unknown_building_is_not_recognized() {
    let mut core = engine(3);
    let before = core.get_current_player_planet_status("Planet1").unwrap();
    let msg = command_error_message(core.execute_command("build unknownthing Planet1"));
    assert_eq!(msg, "Building 'unknownthing' not recognized.");
    let after = core.get_current_player_planet_status("Planet1").unwrap();
    assert_eq!(before.buildings, after.buildings);
    assert_eq!(before.storage, after.storage);
}

#[test]
fn build_on_missing_planet_is_reported() {
    let mut core = engine(3);
    let msg = command_error_message(core.execute_command("build mineralmine Nowhere"));
    assert_eq!(msg, "Planet 'Nowhere' not found.");
}

#[test]
fn build_is_case_insensitive_and_upgrades_the_building() {
    let mut core = engine(3);
    assert_eq!(
        core.execute_command("build MINERALMINE Planet1").unwrap(),
        Some("Build command successful for MINERALMINE on Planet1.".to_string())
    );
    let status = core.get_current_player_planet_status("Planet1").unwrap();
    assert_eq!(status.production.get(Resource::Minerals), 10);
}

#[test]
fn mine_and_silo_accumulate_and_clamp_across_turns() {
    let mut core = engine(3);
    core.execute_command("build mineralmine Planet1").unwrap();
    core.execute_command("build mineralsilo Planet1").unwrap();
    let status = core.get_current_player_planet_status("Planet1").unwrap();
    assert_eq!(status.storage.get(Resource::Minerals), (0, 1000));
    core.execute_command("endturn").unwrap();
    let status = core.get_current_player_planet_status("Planet1").unwrap();
    assert_eq!(status.storage.get(Resource::Minerals), (10, 1000));
    core.execute_command("endturn").unwrap();
    let status = core.get_current_player_planet_status("Planet1").unwrap();
    assert_eq!(status.storage.get(Resource::Minerals), (20, 1000));
    for _ in 0..99 {
        core.execute_command("endturn").unwrap();
    }
    let status = core.get_current_player_planet_status("Planet1").unwrap();
    assert_eq!(status.storage.get(Resource::Minerals), (1000, 1000));
}

#[test]
fn build_insufficient_resources_through_the_engine() {
    let mut t = table(3);
    for (name, config) in t.buildings.iter_mut() {
        if name == "ResearchLab" {
            config.upgrade_cost.energy = vec![25, 0, 0];
        }
    }
    let mut core = GameCore::new(registry(), t).unwrap();
    match core.execute_command("build researchlab Planet1") {
        Err(GameCoreError::PlanetError(PlanetError::InsufficientResources)) => {}
        other => panic!("expected insufficient resources, got {:?}", other),
    }
}

#[test]
fn build_missing_cost_entry_is_a_config_error() {
    let mut t = table(3);
    for (name, config) in t.buildings.iter_mut() {
        if name == "ResearchLab" {
            config.upgrade_cost.gas = vec![];
        }
    }
    let mut core = GameCore::new(registry(), t).unwrap();
    match core.execute_command("build researchlab Planet1") {
        Err(GameCoreError::PlanetError(PlanetError::BuildingsConfigError(
            BuildingsConfigError::GasCostMismatch(m),
        ))) => assert_eq!(m, "Gas cost for level 0 not found"),
        other => panic!("expected a gas cost mismatch, got {:?}", other),
    }

    let mut t = table(3);
    for (name, config) in t.buildings.iter_mut() {
        if name == "ResearchLab" {
            config.upgrade_cost.energy = vec![];
        }
    }
    let mut core = GameCore::new(registry(), t).unwrap();
    match core.execute_command("build researchlab Planet1") {
        Err(GameCoreError::PlanetError(PlanetError::BuildingsConfigError(
            BuildingsConfigError::EnergyCostMismatch(m),
        ))) => assert_eq!(m, "Energy cost for level 0 not found"),
        other => panic!("expected an energy cost mismatch, got {:?}", other),
    }

    let mut t = table(3);
    for (name, config) in t.buildings.iter_mut() {
        if name == "ResearchLab" {
            config.upgrade_cost.minerals = vec![];
        }
    }
    let mut core = GameCore::new(registry(), t).unwrap();
    match core.execute_command("build researchlab Planet1") {
        Err(GameCoreError::PlanetError(PlanetError::BuildingsConfigError(
            BuildingsConfigError::MineralsCostMismatch(m),
        ))) => assert_eq!(m, "Minerals cost for level 0 not found"),
        other => panic!("expected a minerals cost mismatch, got {:?}", other),
    }
}

#[test]
fn removed_player_makes_commands_fail() {
    let mut core = engine(3);
    core.remove_player("Player 1");
    assert_eq!(core.get_planet_count(), 0);
    assert_eq!(core.get_current_player_planet_names(), Vec::<String>::new());
    let msg = command_error_message(core.execute_command("endturn"));
    assert_eq!(msg, "Current player not found.");
}

#[test]
fn building_names_match_case_insensitively() {
    let ids = BuildingTypeId::all();
    for id in ids {
        assert!(eq_ignore_ascii_case(id.get_name(), &id.get_name().to_uppercase()));
    }
}
