//! The shape of a system record and of the search criteria.
use vstd::prelude::*;

verus! {

/// How many coordinate units make up one unit of the dataset's own scale
/// (coordinates are held in fixed point, 1/1024 of a unit).
pub const COORD_SCALE: i64 = 1024;

/// A point in space, each component in fixed-point units of `1 / COORD_SCALE`.
#[derive(Debug, PartialEq, Eq, Structural, Clone, Copy)]
pub struct Coords {
    pub x: i32,
    pub y: i32,
    pub z: i32,
}

impl Coords {
    pub fn new(x: i32, y: i32, z: i32) -> (r: Coords)
        ensures
            r == (Coords { x, y, z }),
    {
        Coords { x, y, z }
    }
}

/// A docking facility; a station without a known type never counts towards
/// a type-based criterion.
#[derive(Debug, PartialEq, Clone)]
pub struct Station {
    pub station_type: Option<String>,
}

/// A faction present in a system.
#[derive(Debug, PartialEq, Eq, Structural, Clone, Copy)]
pub struct Faction {
    pub is_player: bool,
}

/// One record of the searched collection.
#[derive(Debug, PartialEq, Clone)]
pub struct System {
    pub name: String,
    pub allegiance: String,
    pub government: String,
    pub coords: Coords,
    pub population: u128,
    pub stations: Vec<Station>,
    pub factions: Vec<Faction>,
}

/// The views of a list of strings.
pub open spec fn names(v: Seq<String>) -> Seq<Seq<char>> {
    v.map_values(|s: String| s@)
}

/// One search criterion; a list of them is read as their conjunction.
#[derive(Debug, PartialEq, Clone)]
pub enum SystemFilter {
    /// The allegiance equals this one exactly.
    Allegiance(String),
    /// The government equals this one exactly.
    Government(String),
    /// The system lies at most this many coordinate units from the point.
    MaximumDistanceFrom(Coords, i64),
    /// At least this many stations have one of these types.
    MinimumStationCount(Vec<String>, usize),
    /// At most this many factions.
    MaximumFactionCount(usize),
    /// A population of at least this.
    MinimumPopulation(u128),
    /// The name is none of these.
    ExcludeSystems(Vec<String>),
    /// No faction is a player faction.
    ExcludeSystemsWithPlayerFactions,
}

/// What a criterion means, with its strings as character sequences.
pub enum Criterion {
    Allegiance(Seq<char>),
    Government(Seq<char>),
    MaximumDistanceFrom(Coords, i64),
    MinimumStationCount(Seq<Seq<char>>, usize),
    MaximumFactionCount(usize),
    MinimumPopulation(u128),
    ExcludeSystems(Seq<Seq<char>>),
    ExcludeSystemsWithPlayerFactions,
}

impl View for SystemFilter {
    type V = Criterion;

    open spec fn view(&self) -> Criterion {
        match self {
            SystemFilter::Allegiance(a) => Criterion::Allegiance(a@),
            SystemFilter::Government(g) => Criterion::Government(g@),
            SystemFilter::MaximumDistanceFrom(origin, limit) => Criterion::MaximumDistanceFrom(
                *origin,
                *limit,
            ),
            SystemFilter::MinimumStationCount(types, n) => Criterion::MinimumStationCount(
                names(types@),
                *n,
            ),
            SystemFilter::MaximumFactionCount(n) => Criterion::MaximumFactionCount(*n),
            SystemFilter::MinimumPopulation(p) => Criterion::MinimumPopulation(*p),
            SystemFilter::ExcludeSystems(excluded) => Criterion::ExcludeSystems(names(excluded@)),
            SystemFilter::ExcludeSystemsWithPlayerFactions => Criterion::ExcludeSystemsWithPlayerFactions,
        }
    }
}

/// Station types that can dock a large ship.
#[verifier::opaque]
pub open spec fn large_dock_types() -> Seq<Seq<char>> {
    seq![
        "Asteroid base"@,
        "Coriolis Starport"@,
        "Ocellus Starport"@,
        "Orbis Starport"@,
    ]
}

/// Station types that can dock any ship.
#[verifier::opaque]
pub open spec fn dock_types() -> Seq<Seq<char>> {
    seq![
        "Asteroid base"@,
        "Coriolis Starport"@,
        "Ocellus Starport"@,
        "Orbis Starport"@,
        "Outpost"@,
        "Planetary Outpost"@,
        "Planetary Port"@,
    ]
}

/// Station types that are starports.
#[verifier::opaque]
pub open spec fn starport_types() -> Seq<Seq<char>> {
    seq![
        "Coriolis Starport"@,
        "Ocellus Starport"@,
        "Orbis Starport"@,
    ]
}

/// Systems that need a permit to enter.
#[verifier::opaque]
pub open spec fn permit_locked_systems() -> Seq<Seq<char>> {
    seq![
        "Sol"@,
        "Beta Hydri"@,
        "Vega"@,
        "PLX 695"@,
        "Ross 128"@,
        "Exbeur"@,
        "Hors"@,
        "HIP 54530"@,
        "4 Sextantis"@,
        "CD-44 1695"@,
        "HIP 22460"@,
        "LFT 509"@,
        "Mingfu"@,
        "Witch's Reach"@,
        "Achenar"@,
        "Summerland"@,
        "Facece"@,
        "Alioth"@,
        "Shinrarta Dezhra"@,
        "CD-43 11917"@,
        "Crom"@,
        "Jotun"@,
        "Terra Mater"@,
        "Sirius"@,
        "Isinor"@,
        "Hodack"@,
        "LTT 198"@,
        "Luyten 347-14"@,
        "Nastrond"@,
        "Peregrina"@,
        "Pi Mensae"@,
        "Tiliala"@,
        "van Maanen's Star"@,
        "Alpha Hydri"@,
        "Bellica"@,
        "Dryio Flyuae IC-B c1-377"@,
        "HIP 10332"@,
        "HIP 104941"@,
        "HIP 22182"@,
        "HIP 39425"@,
        "HIP 51073"@,
        "HIP 87621"@,
        "HR 4413"@,
        "LHS 2894"@,
        "LHS 2921"@,
        "LHS 3091"@,
        "Mbooni"@,
        "Plaa Ain HA-Z d46"@,
        "Polaris"@,
        "Ross 354"@,
        "Scheau Bli NB-O d6-1409"@,
        "Wolf 262"@,
        "Diso 5 C"@,
        "Lave 2"@,
        "Moon"@,
        "Triton"@,
        "Azoth"@,
        "Dromi"@,
        "Lia Fail"@,
        "Matet"@,
        "Orna"@,
        "Otegine"@,
        "Sharur"@,
        "Tarnkappe"@,
        "Tyet"@,
        "Wolfsegen"@,
    ]
}

/// Systems that sell a rare commodity.
#[verifier::opaque]
pub open spec fn rare_commodity_systems() -> Seq<Seq<char>> {
    seq![
        "47 Ceti"@,
        "Aganippe"@,
        "Alacarakmo"@,
        "Quechua"@,
        "Altair"@,
        "Alya"@,
        "Anduliga"@,
        "Any Na"@,
        "Arouca"@,
        "AZ Cancri"@,
        "Leesti"@,
        "BaltahSine"@,
        "Banki"@,
        "Bast"@,
        "Belalans"@,
        "Borasetani"@,
        "HIP 59533"@,
        "CD-75 661"@,
        "Alpha Centauri"@,
        "Heike"@,
        "LDS 883"@,
        "Aegaeon"@,
        "Cherbones"@,
        "Chi Eridani"@,
        "Coquim"@,
        "Crom"@,
        "Bento"@,
        "Damna"@,
        "Delta Phoenicis"@,
        "Deuringas"@,
        "Diso"@,
        "Aerial"@,
        "Eleu"@,
        "Eranin"@,
        "Eshu"@,
        "Esuseku"@,
        "Ethgreze"@,
        "Fujin"@,
        "LHS 3447"@,
        "Geawen"@,
        "Geras"@,
        "Irukama"@,
        "Phiagre"@,
        "Gilya"@,
        "Goman"@,
        "Haiden"@,
        "Havasupai"@,
        "Helvetitj"@,
        "HIP 10175"@,
        "HIP 118311"@,
        "HIP 80364"@,
        "HIP 41181"@,
        "Holva"@,
        "LP 375-25"@,
        "HR 7221"@,
        "Epsilon Indi"@,
        "Colonia"@,
        "Jaradharre"@,
        "Jaroua"@,
        "Jotun"@,
        "Kachirigin"@,
        "Kamitra"@,
        "Kamorin"@,
        "Karetii"@,
        "Karsuki Ti"@,
        "Kinago"@,
        "Kongga"@,
        "Korro Kung"@,
        "Lave"@,
        "Zaonce"@,
        "Hecate"@,
        "LTT 9360"@,
        "Tanmark"@,
        "Noti"@,
        "Mechucos"@,
        "Medb"@,
        "Mokojing"@,
        "Momus Reach"@,
        "Dea Motrona"@,
        "Mukusubii"@,
        "Mulachi"@,
        "Neritus"@,
        "Ngadandari"@,
        "Nguna"@,
        "Njangari"@,
        "LTT 8517"@,
        "Ochoeng"@,
        "Kappa Fornacis"@,
        "Xelabara"@,
        "HIP 112974"@,
        "36 Ophiuchi"@,
        "Orrere"@,
        "George Pantazis"@,
        "Delta Pavonis"@,
        "Njambalba"@,
        "Rajukru"@,
        "Rapa Bao"@,
        "Rusani"@,
        "Sanuma"@,
        "Arque"@,
        "Ngurii"@,
        "Sothis"@,
        "Tarach Tor"@,
        "Terra Mater"@,
        "Thrutis"@,
        "Tiolce"@,
        "Toxandji"@,
        "17 Lyrae"@,
        "Uszaa"@,
        "Utgaroar"@,
        "Uzumoku"@,
        "V1090 Herculis"@,
        "Vanayequi"@,
        "Vega"@,
        "Vidavanta"@,
        "LFT 1421"@,
        "Volkhab"@,
        "Shinrarta Dezhra"@,
        "Wheemete"@,
        "Witchhaul"@,
        "Wolf 1301"@,
        "Wulpa"@,
        "Wuthielo Ku"@,
        "Xihe"@,
        "Yaso Kondi"@,
    ]
}

fn owned_names(list: Vec<&str>) -> (r: Vec<String>)
    ensures
        names(r@) == list@.map_values(|s: &str| s@),
{
    let mut r: Vec<String> = Vec::new();
    let mut i: usize = 0;
    while i < list.len()
        invariant
            i <= list@.len(),
            r@.len() == i,
            forall|k: int| 0 <= k < i ==> #[trigger] r@[k]@ == list@[k]@,
        decreases list@.len() - i,
    {
        let item: &str = list[i];
        r.push(item.to_owned());
        i = i + 1;
    }
    assert(names(r@) =~= list@.map_values(|s: &str| s@));
    r
}

/// Systems whose allegiance is exactly `wanted`.
pub fn allegiance(wanted: &str) -> (r: SystemFilter)
    ensures
        r@ == Criterion::Allegiance(wanted@),
{
    SystemFilter::Allegiance(wanted.to_owned())
}

/// Systems whose government is exactly `wanted`.
pub fn government(wanted: &str) -> (r: SystemFilter)
    ensures
        r@ == Criterion::Government(wanted@),
{
    SystemFilter::Government(wanted.to_owned())
}

/// Systems with at least `count` stations that dock large ships.
pub fn min_large_docks(count: usize) -> (r: SystemFilter)
    ensures
        r@ == Criterion::MinimumStationCount(large_dock_types(), count),
{
    let types = owned_names(vec![
        "Asteroid base",
        "Coriolis Starport",
        "Ocellus Starport",
        "Orbis Starport",
    ]);
    assert(names(types@) =~= large_dock_types()) by {
        reveal(large_dock_types);
    }
    SystemFilter::MinimumStationCount(types, count)
}

/// Systems with at least `count` stations of any docking type.
pub fn min_docks(count: usize) -> (r: SystemFilter)
    ensures
        r@ == Criterion::MinimumStationCount(dock_types(), count),
{
    let types = owned_names(vec![
        "Asteroid base",
        "Coriolis Starport",
        "Ocellus Starport",
        "Orbis Starport",
        "Outpost",
        "Planetary Outpost",
        "Planetary Port",
    ]);
    assert(names(types@) =~= dock_types()) by {
        reveal(dock_types);
    }
    SystemFilter::MinimumStationCount(types, count)
}

/// Systems with at least `count` starports.
pub fn min_starports(count: usize) -> (r: SystemFilter)
    ensures
        r@ == Criterion::MinimumStationCount(starport_types(), count),
{
    let types = owned_names(vec![
        "Coriolis Starport",
        "Ocellus Starport",
        "Orbis Starport",
    ]);
    assert(names(types@) =~= starport_types()) by {
        reveal(starport_types);
    }
    SystemFilter::MinimumStationCount(types, count)
}

/// Systems at most `limit` coordinate units from the origin.
pub fn max_distance_from_sol(limit: i64) -> (r: SystemFilter)
    ensures
        r == SystemFilter::MaximumDistanceFrom(Coords { x: 0, y: 0, z: 0 }, limit),
{
    SystemFilter::MaximumDistanceFrom(Coords { x: 0, y: 0, z: 0 }, limit)
}

/// Systems at most `limit` coordinate units from `reference`.
pub fn max_distance_from_reference(reference: Coords, limit: i64) -> (r: SystemFilter)
    ensures
        r == SystemFilter::MaximumDistanceFrom(reference, limit),
{
    SystemFilter::MaximumDistanceFrom(reference, limit)
}

/// Systems with a population of at least `count`.
pub fn min_population(count: u128) -> (r: SystemFilter)
    ensures
        r == SystemFilter::MinimumPopulation(count),
{
    SystemFilter::MinimumPopulation(count)
}

/// Systems that need no permit.
pub fn exclude_permit_locked() -> (r: SystemFilter)
    ensures
        r@ == Criterion::ExcludeSystems(permit_locked_systems()),
{
    let excluded = owned_names(vec![
        "Sol",
        "Beta Hydri",
        "Vega",
        "PLX 695",
        "Ross 128",
        "Exbeur",
        "Hors",
        "HIP 54530",
        "4 Sextantis",
        "CD-44 1695",
        "HIP 22460",
        "LFT 509",
        "Mingfu",
        "Witch's Reach",
        "Achenar",
        "Summerland",
        "Facece",
        "Alioth",
        "Shinrarta Dezhra",
        "CD-43 11917",
        "Crom",
        "Jotun",
        "Terra Mater",
        "Sirius",
        "Isinor",
        "Hodack",
        "LTT 198",
        "Luyten 347-14",
        "Nastrond",
        "Peregrina",
        "Pi Mensae",
        "Tiliala",
        "van Maanen's Star",
        "Alpha Hydri",
        "Bellica",
        "Dryio Flyuae IC-B c1-377",
        "HIP 10332",
        "HIP 104941",
        "HIP 22182",
        "HIP 39425",
        "HIP 51073",
        "HIP 87621",
        "HR 4413",
        "LHS 2894",
        "LHS 2921",
        "LHS 3091",
        "Mbooni",
        "Plaa Ain HA-Z d46",
        "Polaris",
        "Ross 354",
        "Scheau Bli NB-O d6-1409",
        "Wolf 262",
        "Diso 5 C",
        "Lave 2",
        "Moon",
        "Triton",
        "Azoth",
        "Dromi",
        "Lia Fail",
        "Matet",
        "Orna",
        "Otegine",
        "Sharur",
        "Tarnkappe",
        "Tyet",
        "Wolfsegen",
    ]);
    assert(names(excluded@) =~= permit_locked_systems()) by {
        reveal(permit_locked_systems);
    }
    SystemFilter::ExcludeSystems(excluded)
}

/// Systems that sell no rare commodity.
pub fn exclude_rare_commodity() -> (r: SystemFilter)
    ensures
        r@ == Criterion::ExcludeSystems(rare_commodity_systems()),
{
    let excluded = owned_names(vec![
        "47 Ceti",
        "Aganippe",
        "Alacarakmo",
        "Quechua",
        "Altair",
        "Alya",
        "Anduliga",
        "Any Na",
        "Arouca",
        "AZ Cancri",
        "Leesti",
        "BaltahSine",
        "Banki",
        "Bast",
        "Belalans",
        "Borasetani",
        "HIP 59533",
        "CD-75 661",
        "Alpha Centauri",
        "Heike",
        "LDS 883",
        "Aegaeon",
        "Cherbones",
        "Chi Eridani",
        "Coquim",
        "Crom",
        "Bento",
        "Damna",
        "Delta Phoenicis",
        "Deuringas",
        "Diso",
        "Aerial",
        "Eleu",
        "Eranin",
        "Eshu",
        "Esuseku",
        "Ethgreze",
        "Fujin",
        "LHS 3447",
        "Geawen",
        "Geras",
        "Irukama",
        "Phiagre",
        "Gilya",
        "Goman",
        "Haiden",
        "Havasupai",
        "Helvetitj",
        "HIP 10175",
        "HIP 118311",
        "HIP 80364",
        "HIP 41181",
        "Holva",
        "LP 375-25",
        "HR 7221",
        "Epsilon Indi",
        "Colonia",
        "Jaradharre",
        "Jaroua",
        "Jotun",
        "Kachirigin",
        "Kamitra",
        "Kamorin",
        "Karetii",
        "Karsuki Ti",
        "Kinago",
        "Kongga",
        "Korro Kung",
        "Lave",
        "Zaonce",
        "Hecate",
        "LTT 9360",
        "Tanmark",
        "Noti",
        "Mechucos",
        "Medb",
        "Mokojing",
        "Momus Reach",
        "Dea Motrona",
        "Mukusubii",
        "Mulachi",
        "Neritus",
        "Ngadandari",
        "Nguna",
        "Njangari",
        "LTT 8517",
        "Ochoeng",
        "Kappa Fornacis",
        "Xelabara",
        "HIP 112974",
        "36 Ophiuchi",
        "Orrere",
        "George Pantazis",
        "Delta Pavonis",
        "Njambalba",
        "Rajukru",
        "Rapa Bao",
        "Rusani",
        "Sanuma",
        "Arque",
        "Ngurii",
        "Sothis",
        "Tarach Tor",
        "Terra Mater",
        "Thrutis",
        "Tiolce",
        "Toxandji",
        "17 Lyrae",
        "Uszaa",
        "Utgaroar",
        "Uzumoku",
        "V1090 Herculis",
        "Vanayequi",
        "Vega",
        "Vidavanta",
        "LFT 1421",
        "Volkhab",
        "Shinrarta Dezhra",
        "Wheemete",
        "Witchhaul",
        "Wolf 1301",
        "Wulpa",
        "Wuthielo Ku",
        "Xihe",
        "Yaso Kondi",
    ]);
    assert(names(excluded@) =~= rare_commodity_systems()) by {
        reveal(rare_commodity_systems);
    }
    SystemFilter::ExcludeSystems(excluded)
}

/// Systems with at most `count` factions.
pub fn max_number_of_factions(count: usize) -> (r: SystemFilter)
    ensures
        r == SystemFilter::MaximumFactionCount(count),
{
    SystemFilter::MaximumFactionCount(count)
}

/// Systems without a player faction.
pub fn exclude_player_faction() -> (r: SystemFilter)
    ensures
        r == SystemFilter::ExcludeSystemsWithPlayerFactions,
{
    SystemFilter::ExcludeSystemsWithPlayerFactions
}

} // verus!
