use system_search::domain::Coords;
use system_search::edsm::{ControllingFaction, Faction, Station, System};

fn sanos() -> System {
    System {
        name: String::from("Sanos"),
        coords: Coords::new(75648, -3648, -53888),
        population: Some(6_149_044_545),
        controlling_faction: ControllingFaction {
            allegiance: Some("Federation".to_string()),
        },
        factions: Some(vec![Faction { is_player: true }, Faction { is_player: false }]),
        stations: Some(vec![
            Station {
                station_type: String::from("Fleet Carrier"),
            },
            Station {
                station_type: "Orbis Starport".to_string(),
            },
        ]),
        allegiance: Some("Federation".to_string()),
        government: Some("Corporate".to_string()),
    }
}

#[test]
fn dumped_system_reads_as_a_record() {
    let record = sanos().to_system();
    assert_eq!(record.name, "Sanos");
    assert_eq!(record.allegiance, "Federation");
    assert_eq!(record.government, "Corporate");
    assert_eq!(record.population, 6_149_044_545);
    assert_eq!(record.coords, Coords::new(75648, -3648, -53888));
    let types: Vec<Option<String>> = record
        .stations
        .iter()
        .map(|s| s.station_type.clone())
        .collect();
    assert_eq!(
        types,
        vec![
            Some("Fleet Carrier".to_string()),
            Some("Orbis Starport".to_string())
        ]
    );
    let players: Vec<bool> = record.factions.iter().map(|f| f.is_player).collect();
    assert_eq!(players, vec![true, false]);
}

#[test]
fn missing_fields_read_as_empty() {
    let bare = System {
        population: None,
        factions: None,
        stations: None,
        allegiance: None,
        government: None,
        ..sanos()
    };
    assert_eq!(bare.name(), "Sanos");
    assert_eq!(bare.allegiance(), "");
    assert_eq!(bare.government(), "");
    assert_eq!(bare.population(), 0);
    assert!(bare.stations().is_empty());
    assert!(bare.factions().is_empty());
    let record = bare.to_system();
    assert!(record.stations.is_empty());
    assert!(record.factions.is_empty());
}
