use system_search::domain::{
    exclude_permit_locked, exclude_rare_commodity, max_distance_from_sol, min_docks,
    min_large_docks, min_starports, Coords, SystemFilter,
};

fn types_of(filter: SystemFilter) -> (Vec<String>, usize) {
    match filter {
        SystemFilter::MinimumStationCount(types, n) => (types, n),
        other => panic!("not a station count: {:?}", other),
    }
}

fn excluded(filter: SystemFilter) -> Vec<String> {
    match filter {
        SystemFilter::ExcludeSystems(names) => names,
        other => panic!("not an exclusion: {:?}", other),
    }
}

#[test]
fn large_dock_types_are_the_four() {
    let (types, n) = types_of(min_large_docks(3));
    assert_eq!(n, 3);
    assert_eq!(
        types,
        vec![
            "Asteroid base",
            "Coriolis Starport",
            "Ocellus Starport",
            "Orbis Starport"
        ]
    );
}

#[test]
fn dock_types_add_outposts_and_ports() {
    let (types, n) = types_of(min_docks(1));
    assert_eq!(n, 1);
    assert_eq!(types.len(), 7);
    assert!(types.contains(&"Planetary Port".to_string()));
    assert!(types.contains(&"Outpost".to_string()));
}

#[test]
fn starport_types_are_the_three() {
    let (types, _) = types_of(min_starports(0));
    assert_eq!(
        types,
        vec!["Coriolis Starport", "Ocellus Starport", "Orbis Starport"]
    );
}

#[test]
fn distance_from_sol_is_from_the_origin() {
    assert_eq!(
        max_distance_from_sol(12),
        SystemFilter::MaximumDistanceFrom(Coords::new(0, 0, 0), 12)
    );
}

#[test]
fn curated_lists_hold_their_names() {
    let permit = excluded(exclude_permit_locked());
    assert_eq!(permit.len(), 66);
    assert!(permit.contains(&"Sol".to_string()));
    assert!(permit.contains(&"van Maanen's Star".to_string()));
    let rare = excluded(exclude_rare_commodity());
    assert_eq!(rare.len(), 125);
    assert!(rare.contains(&"Alpha Centauri".to_string()));
    assert!(!rare.contains(&"Sanos".to_string()));
}
