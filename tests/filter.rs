use system_search::domain::{
    allegiance, exclude_permit_locked, exclude_player_faction, exclude_rare_commodity,
    government, max_distance_from_reference, max_distance_from_sol, max_number_of_factions,
    min_docks, min_large_docks, min_population, min_starports, Coords, Faction, Station, System,
    SystemFilter, COORD_SCALE,
};
use system_search::filter::{filter, suitable_for_all, suitable_system};

fn fixed(v: f64) -> i32 {
    (v * COORD_SCALE as f64) as i32
}

fn coords(x: f64, y: f64, z: f64) -> Coords {
    Coords::new(fixed(x), fixed(y), fixed(z))
}

fn light(v: f64) -> i64 {
    (v * COORD_SCALE as f64) as i64
}

fn make_system(name: &str) -> System {
    System {
        name: String::from(name),
        coords: coords(73.875, -3.5625, -52.625),
        population: 0,
        factions: vec![],
        stations: vec![],
        allegiance: "".to_string(),
        government: "".to_string(),
    }
}

fn make_system_with_allegiance(name: &str, allegiance: &str) -> System {
    System {
        allegiance: String::from(allegiance),
        ..make_system(name)
    }
}

fn make_system_with_government(name: &str, government: &str) -> System {
    System {
        government: String::from(government),
        ..make_system(name)
    }
}

fn make_system_with_population(name: &str, population: u128) -> System {
    System {
        population,
        ..make_system(name)
    }
}

fn make_stub_system_with_docks(name: &str, docks: &[&str]) -> System {
    System {
        population: 1,
        stations: docks
            .iter()
            .map(|x| Station {
                station_type: Some(String::from(*x)),
            })
            .collect(),
        ..make_system(name)
    }
}

fn make_system_with_factions(name: &str, factions: &[bool]) -> System {
    System {
        population: 1,
        factions: factions
            .iter()
            .map(|player| Faction { is_player: *player })
            .collect(),
        ..make_system(name)
    }
}

fn make_system_at_coords(name: &str, at: Coords) -> System {
    System {
        coords: at,
        population: 1,
        ..make_system(name)
    }
}

fn names(systems: &[System]) -> Vec<&str> {
    systems.iter().map(|s| s.name.as_str()).collect()
}

#[test]
fn no_options_returns_everything() {
    let input = [make_system("Sanos"), make_system("Sol")];
    assert_eq!(filter(&[], input.to_vec()), input);
}

#[test]
fn systems_without_enough_large_docks_are_skipped() {
    let sol = make_stub_system_with_docks(
        "Sol",
        &[
            "Asteroid base",
            "Coriolis Starport",
            "Ocellus Starport",
            "Orbis Starport",
            "Planetary Outpost",
            "Ocellus Starport",
        ],
    );
    let input = [
        make_stub_system_with_docks(
            "Sanos",
            &[
                "Asteroid base",
                "Ocellus Starport",
                "Orbis Starport",
                "Planetary Outpost",
            ],
        ),
        sol.clone(),
    ];
    assert_eq!(filter(&[min_large_docks(5)], input.to_vec()), &[sol]);
}

#[test]
fn systems_without_enough_starports_are_skipped() {
    let sol = make_stub_system_with_docks(
        "Sol",
        &["Coriolis Starport", "Ocellus Starport", "Orbis Starport"],
    );
    let input = [
        make_stub_system_with_docks(
            "Sanos",
            &["Asteroid base", "Orbis Starport", "Planetary Outpost"],
        ),
        sol.clone(),
    ];
    assert_eq!(filter(&[min_starports(3)], input.to_vec()), &[sol]);
}

#[test]
fn systems_without_enough_docks_are_skipped() {
    let sol = make_stub_system_with_docks("Sol", &["Asteroid base", "Planetary Outpost"]);
    let input = [
        make_stub_system_with_docks("Sanos", &["Planetary Outpost"]),
        sol.clone(),
    ];
    assert_eq!(filter(&[min_docks(2)], input.to_vec()), &[sol]);
}

#[test]
fn systems_too_far_from_sol_skipped() {
    let sol = make_system_at_coords("Sol", coords(0.0, 0.0, 0.0));
    let input = [
        make_system_at_coords("Sanos", coords(73.875, -3.5625, -52.625)),
        sol.clone(),
    ];
    assert_eq!(
        filter(&[max_distance_from_sol(light(90.0))], input.to_vec()),
        vec![sol]
    );
}

#[test]
fn permit_locked_systems_skipped() {
    let sanos = make_system("Sanos");
    let input = [sanos.clone(), make_system("Sol")];
    assert_eq!(
        filter(&[exclude_permit_locked()], input.to_vec()),
        vec![sanos]
    );
}

#[test]
fn rare_commodity_systems_skipped() {
    let sanos = make_system("Sanos");
    let input = [sanos.clone(), make_system("Alpha Centauri")];
    assert_eq!(
        filter(&[exclude_rare_commodity()], input.to_vec()),
        vec![sanos]
    );
}

#[test]
fn systems_too_far_from_reference_skipped() {
    let sol = make_system_at_coords("Sol", coords(0.0, 0.0, 0.0));
    let input = [
        make_system_at_coords("Sanos", coords(73.875, -3.5625, -52.625)),
        sol.clone(),
    ];
    assert_eq!(
        filter(
            &[max_distance_from_reference(coords(0.0, 0.0, 0.0), light(90.0))],
            input.to_vec(),
        ),
        vec![sol]
    );
}

#[test]
fn systems_with_too_low_population_are_ignored() {
    let sol = make_system_with_population("Sol", 10000_u128);
    let input = [make_system_with_population("Sanos", 9999_u128), sol.clone()];
    assert_eq!(
        filter(&[min_population(10000_u128)], input.to_vec()),
        vec![sol]
    );
}

#[test]
fn systems_with_too_many_factions_are_ignored_ignored() {
    let sol = make_system_with_factions("Sol", &[false, false, false]);
    let input = [
        make_system_with_factions("Sanos", &[false, false, false, false]),
        sol.clone(),
    ];
    assert_eq!(
        filter(&[max_number_of_factions(3)], input.to_vec()),
        vec![sol]
    );
}

#[test]
fn systems_with_player_factions_are_ignored_ignored() {
    let sol = make_system_with_factions("Sol", &[false, false]);
    let input = [make_system_with_factions("Sanos", &[false, true]), sol.clone()];
    assert_eq!(filter(&[exclude_player_faction()], input.to_vec()), vec![sol]);
}

#[test]
fn systems_allegiance() {
    let sol = make_system_with_allegiance("Sol", "Alliance");
    let input = [make_system_with_allegiance("Sanos", "Federation"), sol.clone()];
    assert_eq!(filter(&[allegiance("Alliance")], input.to_vec()), vec![sol]);
}

#[test]
fn systems_government() {
    let sol = make_system_with_government("Sol", "Democracy");
    let input = [make_system_with_government("Sanos", "Corporate"), sol.clone()];
    assert_eq!(filter(&[government("Democracy")], input.to_vec()), vec![sol]);
}

#[test]
fn no_criteria_sorts_by_name() {
    let input = vec![make_system("Sol"), make_system("Sanos")];
    assert_eq!(names(&filter(&[], input)), vec!["Sanos", "Sol"]);
}

#[test]
fn no_criteria_on_no_records_is_empty() {
    assert_eq!(filter(&[], vec![]), vec![]);
}

#[test]
fn order_is_by_bytes_and_stable_for_equal_names() {
    let input = vec![
        make_system_with_population("b", 1),
        make_system_with_population("B", 2),
        make_system_with_population("b", 3),
        make_system_with_population("ab", 4),
        make_system_with_population("a", 5),
        make_system_with_population("B", 6),
        make_system_with_population("\u{e9}", 7),
    ];
    let result = filter(&[], input);
    let seen: Vec<(&str, u128)> = result
        .iter()
        .map(|s| (s.name.as_str(), s.population))
        .collect();
    assert_eq!(
        seen,
        vec![
            ("B", 2),
            ("B", 6),
            ("a", 5),
            ("ab", 4),
            ("b", 1),
            ("b", 3),
            ("\u{e9}", 7)
        ]
    );
}

#[test]
fn five_large_docks_scenario() {
    let large = [
        "Asteroid base",
        "Coriolis Starport",
        "Ocellus Starport",
        "Orbis Starport",
        "Orbis Starport",
    ];
    let input = vec![
        make_stub_system_with_docks("Sol", &large),
        make_stub_system_with_docks("Sanos", &large[..2]),
    ];
    assert_eq!(names(&filter(&[min_large_docks(5)], input)), vec!["Sol"]);
}

#[test]
fn distance_scenario_from_origin() {
    let input = vec![
        make_system_at_coords("Sol", coords(0.0, 0.0, 0.0)),
        make_system_at_coords("Sanos", coords(73.875, -3.5625, -52.625)),
    ];
    let origin = coords(0.0, 0.0, 0.0);
    assert_eq!(
        names(&filter(
            &[SystemFilter::MaximumDistanceFrom(origin, light(90.0))],
            input.clone()
        )),
        vec!["Sol"]
    );
    assert_eq!(
        names(&filter(
            &[SystemFilter::MaximumDistanceFrom(origin, light(91.0))],
            input
        )),
        vec!["Sanos", "Sol"]
    );
}

#[test]
fn exclude_systems_scenario() {
    let input = vec![make_system("Sol"), make_system("Sanos")];
    let criterion = SystemFilter::ExcludeSystems(vec!["Sol".to_string()]);
    assert_eq!(names(&filter(&[criterion], input)), vec!["Sanos"]);
}

#[test]
fn exclusion_is_case_sensitive() {
    let input = vec![make_system("sol"), make_system("Sol")];
    let criterion = SystemFilter::ExcludeSystems(vec!["Sol".to_string()]);
    assert_eq!(names(&filter(&[criterion], input)), vec!["sol"]);
}

#[test]
fn allegiance_is_exact() {
    let system = make_system_with_allegiance("Sol", "Alliance");
    assert!(suitable_system(&system, &allegiance("Alliance")));
    assert!(!suitable_system(&system, &allegiance("alliance")));
    assert!(!suitable_system(&system, &allegiance("Alliance ")));
}

#[test]
fn distance_limit_is_inclusive() {
    let origin = Coords::new(0, 0, 0);
    let at_three_four = make_system_at_coords("Edge", Coords::new(3, 4, 0));
    assert!(suitable_system(
        &at_three_four,
        &SystemFilter::MaximumDistanceFrom(origin, 5)
    ));
    assert!(!suitable_system(
        &at_three_four,
        &SystemFilter::MaximumDistanceFrom(origin, 4)
    ));
    let at_origin = make_system_at_coords("Here", origin);
    assert!(suitable_system(
        &at_origin,
        &SystemFilter::MaximumDistanceFrom(origin, 0)
    ));
    assert!(!suitable_system(
        &at_origin,
        &SystemFilter::MaximumDistanceFrom(origin, -1)
    ));
}

#[test]
fn distance_at_the_extremes_of_the_grid() {
    let low = make_system_at_coords("Low", Coords::new(i32::MIN, i32::MIN, i32::MIN));
    let far = Coords::new(i32::MAX, i32::MAX, i32::MAX);
    assert!(suitable_system(&low, &SystemFilter::MaximumDistanceFrom(far, i64::MAX)));
    assert!(!suitable_system(&low, &SystemFilter::MaximumDistanceFrom(far, 1 << 32)));
}

#[test]
fn no_stations_fail_a_positive_count() {
    let bare = make_system("Bare");
    assert!(!suitable_system(&bare, &min_large_docks(1)));
    assert!(suitable_system(&bare, &min_large_docks(0)));
}

#[test]
fn stations_without_type_never_count() {
    let system = System {
        stations: vec![Station { station_type: None }, Station { station_type: None }],
        ..make_system("Sol")
    };
    assert!(!suitable_system(&system, &min_docks(1)));
}

#[test]
fn no_factions_pass_both_faction_criteria() {
    let bare = make_system_with_factions("Bare", &[]);
    assert!(suitable_system(&bare, &exclude_player_faction()));
    assert!(suitable_system(&bare, &max_number_of_factions(0)));
}

#[test]
fn population_bound_is_inclusive_and_wide() {
    let big = make_system_with_population("Big", u128::MAX);
    assert!(suitable_system(&big, &min_population(u128::MAX)));
    let small = make_system_with_population("Small", u128::MAX - 1);
    assert!(!suitable_system(&small, &min_population(u128::MAX)));
}

#[test]
fn criteria_are_a_conjunction() {
    let sol = make_system_with_factions("Sol", &[false]);
    let criteria = [max_number_of_factions(1), exclude_player_faction()];
    assert!(suitable_for_all(&sol, &criteria));
    let crowded = make_system_with_factions("Crowded", &[false, false]);
    assert!(!suitable_for_all(&crowded, &criteria));
    assert!(suitable_for_all(&crowded, &[]));
}

#[test]
fn split_criteria_compose() {
    let input = vec![
        make_system_with_factions("Sol", &[false]),
        make_system_with_factions("Achenar", &[true]),
        make_system_with_factions("Sanos", &[false, false]),
        make_system_with_factions("Lave", &[false]),
    ];
    let c1 = vec![max_number_of_factions(1)];
    let c2 = vec![exclude_player_faction(), exclude_rare_commodity()];
    let mut both = c1.clone();
    both.extend(c2.clone());
    let at_once = filter(&both, input.clone());
    let in_turn = filter(&c2, filter(&c1, input.clone()));
    assert_eq!(at_once, in_turn);
    assert_eq!(names(&at_once), vec!["Sol"]);
    let mut reversed = c2.clone();
    reversed.extend(c1.clone());
    assert_eq!(filter(&reversed, input), at_once);
}

#[test]
fn duplicate_names_are_kept() {
    let input = vec![make_system("Sol"), make_system("Sol")];
    assert_eq!(filter(&[], input).len(), 2);
}

#[test]
fn many_records_sort_like_a_stable_byte_sort() {
    let mut seed: u64 = 7;
    let mut input = Vec::new();
    for i in 0..5000u128 {
        seed = seed.wrapping_mul(6364136223846793005).wrapping_add(1442695040888963407);
        let len = (seed >> 60) as usize % 4;
        let name: String = (0..len)
            .map(|k| ["a", "B", "b", "\u{e9}", "z"][((seed >> (8 * k + 3)) % 5) as usize])
            .collect();
        input.push(make_system_with_population(&name, i));
    }
    let mut expected: Vec<(String, u128)> = input
        .iter()
        .map(|s| (s.name.clone(), s.population))
        .collect();
    expected.sort_by(|a, b| a.0.as_bytes().cmp(b.0.as_bytes()));
    let result: Vec<(String, u128)> = filter(&[], input)
        .into_iter()
        .map(|s| (s.name, s.population))
        .collect();
    assert_eq!(result, expected);
}
