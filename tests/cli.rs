use system_search::cli::{parameters_from_matches, Cli, Error};
use system_search::domain::{
    allegiance, government, max_distance_from_reference, max_distance_from_sol, min_docks,
    min_large_docks, min_population, min_starports, Coords, System, COORD_SCALE,
};

fn light(v: f64) -> i64 {
    (v * COORD_SCALE as f64) as i64
}

fn sol() -> System {
    System {
        name: "Sol".into(),
        coords: Coords::new(0, 0, 0),
        stations: vec![],
        population: 0,
        factions: vec![],
        allegiance: String::new(),
        government: String::new(),
    }
}

#[test]
fn no_switches() {
    let args = Cli::default();
    assert_eq!(parameters_from_matches(&args, &[]).unwrap(), vec![]);
}

#[test]
fn large_docks_present() {
    let args = Cli {
        min_docks_large: Some(10),
        ..Cli::default()
    };
    assert_eq!(
        parameters_from_matches(&args, &[]).unwrap(),
        vec![min_large_docks(10)]
    );
}

#[test]
fn min_population_present() {
    let args = Cli {
        min_population: Some(10),
        ..Cli::default()
    };
    assert_eq!(
        parameters_from_matches(&args, &[]).unwrap(),
        vec![min_population(10)]
    );
}

#[test]
fn docks_present() {
    let args = Cli {
        min_docks: Some(10),
        ..Cli::default()
    };
    assert_eq!(
        parameters_from_matches(&args, &[]).unwrap(),
        vec![min_docks(10)]
    );
}

#[test]
fn starports_present() {
    let args = Cli {
        min_starports: Some(10),
        ..Cli::default()
    };
    assert_eq!(
        parameters_from_matches(&args, &[]).unwrap(),
        vec![min_starports(10)]
    );
}

#[test]
fn population_present() {
    let args = Cli {
        min_population: Some(25_000_000_000),
        ..Cli::default()
    };
    assert_eq!(
        parameters_from_matches(&args, &[]).unwrap(),
        vec![min_population(25_000_000_000)]
    );
}

#[test]
fn allegiance_matches() {
    let args = Cli {
        allegiance: Some("Alliance".to_string()),
        ..Cli::default()
    };
    assert_eq!(
        parameters_from_matches(&args, &[]).unwrap(),
        vec![allegiance("Alliance")]
    );
}

#[test]
fn government_matches() {
    let args = Cli {
        government: Some("Democracy".to_string()),
        ..Cli::default()
    };
    assert_eq!(
        parameters_from_matches(&args, &[]).unwrap(),
        vec![government("Democracy")]
    );
}

#[test]
fn exclude_permit_locked() {
    let args = Cli {
        exclude_permit_locked: true,
        ..Cli::default()
    };
    assert_eq!(
        parameters_from_matches(&args, &[]).unwrap(),
        vec![system_search::domain::exclude_permit_locked()]
    );
}

#[test]
fn exclude_rare_commodity() {
    let args = Cli {
        exclude_rare_commodity: true,
        ..Cli::default()
    };
    assert_eq!(
        parameters_from_matches(&args, &[]).unwrap(),
        vec![system_search::domain::exclude_rare_commodity()]
    );
}

#[test]
fn exclude_player_faction() {
    let args = Cli {
        exclude_player_faction: true,
        ..Cli::default()
    };
    assert_eq!(
        parameters_from_matches(&args, &[]).unwrap(),
        vec![system_search::domain::exclude_player_faction()]
    );
}

#[test]
fn max_factions_present() {
    let args = Cli {
        max_number_of_factions: Some(10),
        ..Cli::default()
    };
    assert_eq!(
        parameters_from_matches(&args, &[]).unwrap(),
        vec![system_search::domain::max_number_of_factions(10)]
    );
}

#[test]
fn distance_from_sol_present() {
    let args = Cli {
        max_distance_from_sol: Some(light(10.)),
        ..Cli::default()
    };
    assert_eq!(
        parameters_from_matches(&args, &[]).unwrap(),
        vec![max_distance_from_sol(light(10.0))]
    );
}

#[test]
fn reference_system_not_found() {
    let args = Cli {
        max_distance_from_reference: Some(light(10.)),
        reference: Some("Missing".to_string()),
        ..Cli::default()
    };
    assert!(parameters_from_matches(&args, &[sol()]).is_err());
}

#[test]
fn both_reference_and_distance_present() {
    let args = Cli {
        max_distance_from_reference: Some(light(10.)),
        reference: Some("Sol".to_string()),
        ..Cli::default()
    };
    assert_eq!(
        parameters_from_matches(&args, &[sol()]).unwrap(),
        vec![max_distance_from_reference(Coords::new(0, 0, 0), light(10.0))]
    );
}

#[test]
fn missing_reference_names_the_system() {
    let args = Cli {
        reference: Some("Missing".to_string()),
        ..Cli::default()
    };
    assert_eq!(
        parameters_from_matches(&args, &[sol()]),
        Err(Error::SystemNotFound("Missing".to_string()))
    );
}

#[test]
fn reference_uses_the_first_system_with_that_name() {
    let first = System {
        coords: Coords::new(1, 2, 3),
        ..sol()
    };
    let second = System {
        coords: Coords::new(4, 5, 6),
        ..sol()
    };
    let args = Cli {
        max_distance_from_reference: Some(7),
        reference: Some("Sol".to_string()),
        ..Cli::default()
    };
    assert_eq!(
        parameters_from_matches(&args, &[first, second]).unwrap(),
        vec![max_distance_from_reference(Coords::new(1, 2, 3), 7)]
    );
}

#[test]
fn reference_without_distance_adds_nothing() {
    let args = Cli {
        reference: Some("Sol".to_string()),
        ..Cli::default()
    };
    assert_eq!(parameters_from_matches(&args, &[sol()]).unwrap(), vec![]);
}

#[test]
fn criteria_come_in_a_fixed_order() {
    let args = Cli {
        exclude_player_faction: true,
        min_docks_large: Some(2),
        government: Some("Democracy".to_string()),
        allegiance: Some("Alliance".to_string()),
        max_number_of_factions: Some(4),
        min_population: Some(5),
        ..Cli::default()
    };
    assert_eq!(
        parameters_from_matches(&args, &[]).unwrap(),
        vec![
            allegiance("Alliance"),
            government("Democracy"),
            min_large_docks(2),
            min_population(5),
            system_search::domain::max_number_of_factions(4),
            system_search::domain::exclude_player_faction(),
        ]
    );
}
