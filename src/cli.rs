//! Turning the search options a user gave into a list of criteria.
use vstd::prelude::*;

use crate::domain::{
    allegiance, exclude_permit_locked, exclude_player_faction, exclude_rare_commodity, government,
    large_dock_types, dock_types, max_distance_from_reference, max_distance_from_sol,
    max_number_of_factions, min_docks, min_large_docks, min_population, min_starports,
    permit_locked_systems, rare_commodity_systems, starport_types, Coords, Criterion, System,
    SystemFilter,
};

verus! {

/// The search options, each absent or false when not asked for. Distances
/// are in coordinate units.
#[derive(Debug, PartialEq)]
pub struct Cli {
    pub min_docks_large: Option<usize>,
    pub allegiance: Option<String>,
    pub government: Option<String>,
    pub min_starports: Option<usize>,
    pub min_docks: Option<usize>,
    pub min_population: Option<u128>,
    pub max_distance_from_sol: Option<i64>,
    pub max_distance_from_reference: Option<i64>,
    pub max_number_of_factions: Option<usize>,
    pub reference: Option<String>,
    pub exclude_permit_locked: bool,
    pub exclude_player_faction: bool,
    pub exclude_rare_commodity: bool,
}

impl Default for Cli {
    fn default() -> (r: Cli)
        ensures
            r.min_docks_large is None,
            r.allegiance is None,
            r.government is None,
            r.min_starports is None,
            r.min_docks is None,
            r.min_population is None,
            r.max_distance_from_sol is None,
            r.max_distance_from_reference is None,
            r.max_number_of_factions is None,
            r.reference is None,
            !r.exclude_permit_locked,
            !r.exclude_player_faction,
            !r.exclude_rare_commodity,
    {
        Cli {
            min_docks_large: None,
            allegiance: None,
            government: None,
            min_starports: None,
            min_docks: None,
            min_population: None,
            max_distance_from_sol: None,
            max_distance_from_reference: None,
            max_number_of_factions: None,
            reference: None,
            exclude_permit_locked: false,
            exclude_player_faction: false,
            exclude_rare_commodity: false,
        }
    }
}

/// Why the options could not be turned into criteria.
#[derive(Debug, PartialEq)]
pub enum Error {
    /// No record carries the reference system's name.
    SystemNotFound(String),
}

/// The criteria of a list, each as what it means.
pub open spec fn meanings(filters: Seq<SystemFilter>) -> Seq<Criterion> {
    filters.map_values(|f: SystemFilter| f@)
}

pub open spec fn optional(c: Option<Criterion>) -> Seq<Criterion> {
    match c {
        Some(c) => seq![c],
        None => seq![],
    }
}

pub open spec fn when(flag: bool, c: Criterion) -> Seq<Criterion> {
    if flag {
        seq![c]
    } else {
        seq![]
    }
}

/// Whether record `i` is the first of `systems` named `name`.
pub open spec fn is_first_named(systems: Seq<System>, name: Seq<char>, i: int) -> bool {
    &&& 0 <= i < systems.len()
    &&& systems[i].name@ == name
    &&& forall|j: int| 0 <= j < i ==> systems[j].name@ != name
}

/// Whether some record of `systems` is named `name`.
pub open spec fn has_named(systems: Seq<System>, name: Seq<char>) -> bool {
    exists|i: int| 0 <= i < systems.len() && systems[i].name@ == name
}

pub open spec fn allegiance_part(m: Cli) -> Seq<Criterion> {
    optional(
        match m.allegiance {
            Some(a) => Some(Criterion::Allegiance(a@)),
            None => None,
        },
    )
}

pub open spec fn government_part(m: Cli) -> Seq<Criterion> {
    optional(
        match m.government {
            Some(g) => Some(Criterion::Government(g@)),
            None => None,
        },
    )
}

pub open spec fn station_parts(m: Cli) -> Seq<Criterion> {
    optional(
        match m.min_docks_large {
            Some(n) => Some(Criterion::MinimumStationCount(large_dock_types(), n)),
            None => None,
        },
    ) + optional(
        match m.min_docks {
            Some(n) => Some(Criterion::MinimumStationCount(dock_types(), n)),
            None => None,
        },
    ) + optional(
        match m.min_starports {
            Some(n) => Some(Criterion::MinimumStationCount(starport_types(), n)),
            None => None,
        },
    )
}

pub open spec fn sol_part(m: Cli) -> Seq<Criterion> {
    optional(
        match m.max_distance_from_sol {
            Some(d) => Some(Criterion::MaximumDistanceFrom(Coords { x: 0, y: 0, z: 0 }, d)),
            None => None,
        },
    )
}

pub open spec fn population_part(m: Cli) -> Seq<Criterion> {
    optional(
        match m.min_population {
            Some(p) => Some(Criterion::MinimumPopulation(p)),
            None => None,
        },
    )
}

/// A distance from the reference applies only when both the distance and
/// the reference system are given.
pub open spec fn reference_part(m: Cli, reference: Option<Coords>) -> Seq<Criterion> {
    optional(
        match (m.max_distance_from_reference, reference) {
            (Some(d), Some(origin)) => Some(Criterion::MaximumDistanceFrom(origin, d)),
            _ => None,
        },
    )
}

pub open spec fn faction_count_part(m: Cli) -> Seq<Criterion> {
    optional(
        match m.max_number_of_factions {
            Some(n) => Some(Criterion::MaximumFactionCount(n)),
            None => None,
        },
    )
}

pub open spec fn exclusion_parts(m: Cli) -> Seq<Criterion> {
    when(m.exclude_permit_locked, Criterion::ExcludeSystems(permit_locked_systems())) + when(
        m.exclude_rare_commodity,
        Criterion::ExcludeSystems(rare_commodity_systems()),
    ) + when(m.exclude_player_faction, Criterion::ExcludeSystemsWithPlayerFactions)
}

/// The criteria that the options ask for, in a fixed order, with
/// `reference` the coordinates of the reference system when one was named.
pub open spec fn criteria_of(m: Cli, reference: Option<Coords>) -> Seq<Criterion> {
    allegiance_part(m) + government_part(m) + station_parts(m) + sol_part(m) + population_part(m)
        + reference_part(m, reference) + faction_count_part(m) + exclusion_parts(m)
}

fn push_optional(filters: &mut Vec<SystemFilter>, filter: Option<SystemFilter>)
    ensures
        meanings(final(filters)@) == meanings(old(filters)@) + optional(
            match filter {
                Some(f) => Some(f@),
                None => None,
            },
        ),
{
    match filter {
        Some(f) => {
            filters.push(f);
            assert(meanings(final(filters)@) =~= meanings(old(filters)@) + seq![f@]);
        },
        None => {
            assert(meanings(final(filters)@) =~= meanings(old(filters)@) + seq![]);
        },
    }
}

/// The coordinates of the first record named `name`, if any.
fn find_coordinates(systems: &[System], name: &String) -> (r: Option<Coords>)
    ensures
        r is Some <==> has_named(systems@, name@),
        r matches Some(c) ==> exists|i: int| is_first_named(systems@, name@, i) && systems@[i].coords == c,
{
    let mut i: usize = 0;
    while i < systems.len()
        invariant
            i <= systems@.len(),
            forall|j: int| 0 <= j < i ==> systems@[j].name@ != name@,
        decreases systems@.len() - i,
    {
        if systems[i].name == *name {
            assert(is_first_named(systems@, name@, i as int));
            return Some(systems[i].coords);
        }
        i = i + 1;
    }
    None
}

fn push_text_criteria(filters: &mut Vec<SystemFilter>, matches: &Cli)
    ensures
        meanings(final(filters)@) == meanings(old(filters)@) + allegiance_part(*matches)
            + government_part(*matches),
{
    push_optional(
        filters,
        match &matches.allegiance {
            Some(a) => Some(allegiance(a.as_str())),
            None => None,
        },
    );
    push_optional(
        filters,
        match &matches.government {
            Some(g) => Some(government(g.as_str())),
            None => None,
        },
    );
}

fn push_station_criteria(filters: &mut Vec<SystemFilter>, matches: &Cli)
    ensures
        meanings(final(filters)@) == meanings(old(filters)@) + station_parts(*matches),
{
    push_optional(
        filters,
        match matches.min_docks_large {
            Some(n) => Some(min_large_docks(n)),
            None => None,
        },
    );
    push_optional(
        filters,
        match matches.min_docks {
            Some(n) => Some(min_docks(n)),
            None => None,
        },
    );
    push_optional(
        filters,
        match matches.min_starports {
            Some(n) => Some(min_starports(n)),
            None => None,
        },
    );
    assert(meanings(final(filters)@) =~= meanings(old(filters)@) + station_parts(*matches));
}

fn push_numeric_criteria(filters: &mut Vec<SystemFilter>, matches: &Cli, reference: Option<Coords>)
    ensures
        meanings(final(filters)@) == meanings(old(filters)@) + sol_part(*matches) + population_part(
            *matches,
        ) + reference_part(*matches, reference) + faction_count_part(*matches),
{
    push_optional(
        filters,
        match matches.max_distance_from_sol {
            Some(d) => Some(max_distance_from_sol(d)),
            None => None,
        },
    );
    push_optional(
        filters,
        match matches.min_population {
            Some(p) => Some(min_population(p)),
            None => None,
        },
    );
    push_optional(
        filters,
        match (matches.max_distance_from_reference, reference) {
            (Some(d), Some(origin)) => Some(max_distance_from_reference(origin, d)),
            _ => None,
        },
    );
    push_optional(
        filters,
        match matches.max_number_of_factions {
            Some(n) => Some(max_number_of_factions(n)),
            None => None,
        },
    );
}

fn push_exclusion_criteria(filters: &mut Vec<SystemFilter>, matches: &Cli)
    ensures
        meanings(final(filters)@) == meanings(old(filters)@) + exclusion_parts(*matches),
{
    push_optional(
        filters,
        if matches.exclude_permit_locked {
            Some(exclude_permit_locked())
        } else {
            None
        },
    );
    push_optional(
        filters,
        if matches.exclude_rare_commodity {
            Some(exclude_rare_commodity())
        } else {
            None
        },
    );
    push_optional(
        filters,
        if matches.exclude_player_faction {
            Some(exclude_player_faction())
        } else {
            None
        },
    );
    assert(meanings(final(filters)@) =~= meanings(old(filters)@) + exclusion_parts(*matches));
}

/// The criteria that `matches` asks for, with `reference` the coordinates of
/// the reference system when it was found.
fn criteria_from(matches: &Cli, reference: Option<Coords>) -> (r: Vec<SystemFilter>)
    ensures
        meanings(r@) == criteria_of(*matches, reference),
{
    let mut filters: Vec<SystemFilter> = Vec::new();
    assert(meanings(filters@) =~= seq![]);
    push_text_criteria(&mut filters, matches);
    push_station_criteria(&mut filters, matches);
    push_numeric_criteria(&mut filters, matches, reference);
    push_exclusion_criteria(&mut filters, matches);
    assert(meanings(filters@) =~= criteria_of(*matches, reference));
    filters
}

/// The criteria that `matches` asks for, the reference system looked up by
/// name among `systems`. Fails exactly when a reference system is named and
/// no record carries that name.
pub fn parameters_from_matches(matches: &Cli, systems: &[System]) -> (r: Result<
    Vec<SystemFilter>,
    Error,
>)
    ensures
        match matches.reference {
            None => r matches Ok(filters) && meanings(filters@) == criteria_of(*matches, None),
            Some(name) => if has_named(systems@, name@) {
                r matches Ok(filters) && exists|i: int|
                    is_first_named(systems@, name@, i) && meanings(filters@) == criteria_of(
                        *matches,
                        Some(systems@[i].coords),
                    )
            } else {
                r matches Err(Error::SystemNotFound(missing)) && missing@ == name@
            },
        },
{
    let reference: Option<Coords> = match &matches.reference {
        Some(name) => match find_coordinates(systems, name) {
            Some(c) => Some(c),
            None => {
                return Err(Error::SystemNotFound(name.clone()));
            },
        },
        None => None,
    };
    Ok(criteria_from(matches, reference))
}

} // verus!
