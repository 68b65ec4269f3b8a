//! The evaluator of one criterion on one record, and the filter engine.
use vstd::prelude::*;

use crate::distance::{is_within_distance, squared_distance, within_distance};
use crate::domain::{names, Coords, Faction, Station, System, SystemFilter};
use crate::order::{
    backwards, lemma_sort_filter, lemma_sort_keeps_records, lemma_sort_of_ordered,
    lemma_sort_ordered, ordered_by_name, reversed, sort_by_name, sort_records,
};

verus! {

broadcast use vstd::seq_lib::group_seq_properties;

/// Whether the station's type is known and is one of `types`.
pub open spec fn has_type_in(station: Station, types: Seq<String>) -> bool {
    match station.station_type {
        Some(t) => names(types).contains(t@),
        None => false,
    }
}

/// How many of the stations have a type among `types`.
pub open spec fn station_count(stations: Seq<Station>, types: Seq<String>) -> nat {
    stations.filter(|st: Station| has_type_in(st, types)).len()
}

/// Whether some faction is a player faction.
pub open spec fn any_player_faction(factions: Seq<Faction>) -> bool {
    exists|i: int| 0 <= i < factions.len() && (#[trigger] factions[i]).is_player
}

/// Whether the record meets the criterion.
pub open spec fn satisfies(s: System, c: SystemFilter) -> bool {
    match c {
        SystemFilter::Allegiance(a) => s.allegiance@ == a@,
        SystemFilter::Government(g) => s.government@ == g@,
        SystemFilter::MaximumDistanceFrom(origin, limit) => within_distance(origin, s.coords, limit),
        SystemFilter::MinimumStationCount(types, n) => station_count(s.stations@, types@) >= n,
        SystemFilter::MaximumFactionCount(n) => s.factions@.len() <= n,
        SystemFilter::MinimumPopulation(p) => s.population >= p,
        SystemFilter::ExcludeSystems(excluded) => !names(excluded@).contains(s.name@),
        SystemFilter::ExcludeSystemsWithPlayerFactions => !any_player_faction(s.factions@),
    }
}

/// Whether the record meets every criterion of the list.
pub open spec fn satisfies_all(s: System, criteria: Seq<SystemFilter>) -> bool {
    forall|i: int| 0 <= i < criteria.len() ==> satisfies(s, #[trigger] criteria[i])
}

/// The records that meet every criterion, in the order they are given.
pub open spec fn matching(records: Seq<System>, criteria: Seq<SystemFilter>) -> Seq<System> {
    records.filter(|s: System| satisfies_all(s, criteria))
}

/// What a search returns: the matching records, stably sorted by name.
pub open spec fn search_result(records: Seq<System>, criteria: Seq<SystemFilter>) -> Seq<System> {
    sort_by_name(matching(records, criteria))
}

fn is_listed(list: &Vec<String>, name: &String) -> (r: bool)
    ensures
        r == names(list@).contains(name@),
{
    let mut i: usize = 0;
    while i < list.len()
        invariant
            i <= list@.len(),
            forall|k: int| 0 <= k < i ==> list@[k]@ != name@,
        decreases list@.len() - i,
    {
        if list[i] == *name {
            assert(names(list@)[i as int] == name@);
            return true;
        }
        i = i + 1;
    }
    assert forall|k: int| 0 <= k < names(list@).len() implies names(list@)[k] != name@ by {
        assert(names(list@)[k] == list@[k]@);
    }
    false
}

fn is_excluded_system(excluded_systems: &Vec<String>, system: &System) -> (r: bool)
    ensures
        r == names(excluded_systems@).contains(system.name@),
{
    is_listed(excluded_systems, &system.name)
}

fn has_allegiance(allegiance: &String, system: &System) -> (r: bool)
    ensures
        r == (system.allegiance@ == allegiance@),
{
    system.allegiance == *allegiance
}

fn has_government(government: &String, system: &System) -> (r: bool)
    ensures
        r == (system.government@ == government@),
{
    system.government == *government
}

fn station_has_type_in(station: &Station, types: &Vec<String>) -> (r: bool)
    ensures
        r == has_type_in(*station, types@),
{
    match &station.station_type {
        Some(t) => is_listed(types, t),
        None => false,
    }
}

fn has_docks(min_docks: usize, types: &Vec<String>, system: &System) -> (r: bool)
    ensures
        r == (station_count(system.stations@, types@) >= min_docks),
{
    let stations = &system.stations;
    let ghost keep = |st: Station| has_type_in(st, types@);
    let mut count: usize = 0;
    let mut i: usize = 0;
    while i < stations.len()
        invariant
            i <= stations@.len(),
            keep == (|st: Station| has_type_in(st, types@)),
            count == stations@.take(i as int).filter(keep).len(),
            count <= i,
        decreases stations@.len() - i,
    {
        let ghost next = stations@.take(i as int + 1);
        proof {
            assert(next.drop_last() =~= stations@.take(i as int));
            assert(next.last() == stations@[i as int]);
        }
        let listed = station_has_type_in(&stations[i], types);
        if listed {
            proof {
                reveal(Seq::filter);
                assert(keep(next.last()));
                assert(next.filter(keep) == stations@.take(i as int).filter(keep).push(next.last()));
            }
            count = count + 1;
        } else {
            proof {
                reveal(Seq::filter);
                assert(!keep(next.last()));
                assert(next.filter(keep) == stations@.take(i as int).filter(keep));
            }
        }
        i = i + 1;
    }
    assert(stations@.take(i as int) =~= stations@);
    count >= min_docks
}

fn has_max_number_of_factions(max_factions: usize, system: &System) -> (r: bool)
    ensures
        r == (system.factions@.len() <= max_factions),
{
    system.factions.len() <= max_factions
}

fn has_player_faction(system: &System) -> (r: bool)
    ensures
        r == any_player_faction(system.factions@),
{
    let mut i: usize = 0;
    while i < system.factions.len()
        invariant
            i <= system.factions@.len(),
            forall|k: int| 0 <= k < i ==> !(#[trigger] system.factions@[k]).is_player,
        decreases system.factions@.len() - i,
    {
        if system.factions[i].is_player {
            return true;
        }
        i = i + 1;
    }
    false
}

fn has_min_population(min_population: u128, system: &System) -> (r: bool)
    ensures
        r == (system.population >= min_population),
{
    system.population >= min_population
}

fn has_location_within_max_distance_from_reference(
    max_distance: i64,
    reference: &Coords,
    system: &System,
) -> (r: bool)
    ensures
        r == within_distance(*reference, system.coords, max_distance),
{
    is_within_distance(reference, &system.coords, max_distance)
}

/// Whether `system` meets `filter`.
pub fn suitable_system(system: &System, filter: &SystemFilter) -> (r: bool)
    ensures
        r == satisfies(*system, *filter),
{
    match filter {
        SystemFilter::MaximumDistanceFrom(reference, max_distance) => {
            has_location_within_max_distance_from_reference(*max_distance, reference, system)
        },
        SystemFilter::MinimumStationCount(types, docks) => has_docks(*docks, types, system),
        SystemFilter::MaximumFactionCount(factions) => has_max_number_of_factions(
            *factions,
            system,
        ),
        SystemFilter::MinimumPopulation(population) => has_min_population(*population, system),
        SystemFilter::ExcludeSystems(systems) => !is_excluded_system(systems, system),
        SystemFilter::ExcludeSystemsWithPlayerFactions => !has_player_faction(system),
        SystemFilter::Allegiance(allegiance) => has_allegiance(allegiance, system),
        SystemFilter::Government(government) => has_government(government, system),
    }
}

/// Whether `system` meets every criterion of `search_options`.
pub fn suitable_for_all(system: &System, search_options: &[SystemFilter]) -> (r: bool)
    ensures
        r == satisfies_all(*system, search_options@),
{
    let mut i: usize = 0;
    while i < search_options.len()
        invariant
            i <= search_options@.len(),
            forall|k: int| 0 <= k < i ==> satisfies(*system, #[trigger] search_options@[k]),
        decreases search_options@.len() - i,
    {
        if !suitable_system(system, &search_options[i]) {
            return false;
        }
        i = i + 1;
    }
    true
}

/// The records of `systems` that meet every criterion of `search_options`,
/// stably sorted by name in byte order.
pub fn filter(search_options: &[SystemFilter], systems: Vec<System>) -> (r: Vec<System>)
    ensures
        r@ == search_result(systems@, search_options@),
{
    let ghost all = systems@;
    let ghost keep = |s: System| satisfies_all(s, search_options@);
    let mut rest = reversed(systems);
    let mut kept: Vec<System> = Vec::new();
    proof {
        assert(all.skip(0) =~= all);
        assert(all.take(0) =~= Seq::<System>::empty());
        reveal(Seq::filter);
    }
    while rest.len() > 0
        invariant
            rest@.len() <= all.len(),
            rest@ == backwards(all.skip(all.len() - rest@.len())),
            keep == (|s: System| satisfies_all(s, search_options@)),
            kept@ == all.take(all.len() - rest@.len()).filter(keep),
        decreases rest@.len(),
    {
        let ghost i = all.len() - rest@.len();
        let system = rest.pop().unwrap();
        proof {
            assert(system == all[i]);
            assert(rest@ =~= backwards(all.skip(i + 1)));
            let next = all.take(i + 1);
            assert(next.drop_last() =~= all.take(i));
            assert(next.last() == system);
            reveal(Seq::filter);
        }
        if suitable_for_all(&system, search_options) {
            kept.push(system);
        }
    }
    proof {
        assert(all.take(all.len() as int) =~= all);
    }
    sort_records(kept)
}

/// A filter with the conjunction of two predicates is the one filter after
/// the other.
proof fn lemma_filter_conjunction(
    s: Seq<System>,
    p: spec_fn(System) -> bool,
    q: spec_fn(System) -> bool,
    both: spec_fn(System) -> bool,
)
    requires
        forall|x: System| #[trigger] both(x) == (p(x) && q(x)),
    ensures
        s.filter(p).filter(q) == s.filter(both),
    decreases s.len(),
{
    reveal(Seq::filter);
    if s.len() > 0 {
        let d = s.drop_last();
        lemma_filter_conjunction(d, p, q, both);
        if p(s.last()) {
            let fp = d.filter(p).push(s.last());
            assert(fp.drop_last() =~= d.filter(p));
            assert(fp.last() == s.last());
            assert(s.filter(p) == fp);
        } else {
            assert(s.filter(p) == d.filter(p));
        }
    }
}

proof fn lemma_satisfies_all_concat(s: System, c1: Seq<SystemFilter>, c2: Seq<SystemFilter>)
    ensures
        satisfies_all(s, c1 + c2) == (satisfies_all(s, c1) && satisfies_all(s, c2)),
{
    let c = c1 + c2;
    if satisfies_all(s, c) {
        assert forall|i: int| 0 <= i < c1.len() implies satisfies(s, #[trigger] c1[i]) by {
            assert(c[i] == c1[i]);
        }
        assert forall|i: int| 0 <= i < c2.len() implies satisfies(s, #[trigger] c2[i]) by {
            assert(c[c1.len() + i] == c2[i]);
        }
    }
    if satisfies_all(s, c1) && satisfies_all(s, c2) {
        assert forall|i: int| 0 <= i < c.len() implies satisfies(s, #[trigger] c[i]) by {
            if i < c1.len() {
                assert(c[i] == c1[i]);
            } else {
                assert(c[i] == c2[i - c1.len()]);
            }
        }
    }
}

/// With no criteria, a search keeps every record, each as often as it
/// occurs, and orders them by name.
pub proof fn lemma_no_criteria_keeps_everything(records: Seq<System>)
    ensures
        search_result(records, seq![]) == sort_by_name(records),
        search_result(records, seq![]).to_multiset() == records.to_multiset(),
        ordered_by_name(search_result(records, seq![])),
{
    let none = Seq::<SystemFilter>::empty();
    let all = |s: System| true;
    lemma_filter_conjunction(records, all, all, |s: System| satisfies_all(s, none));
    assert(records.filter(all) == records) by {
        lemma_filter_conjunction(records, all, all, all);
        reveal(Seq::filter);
        lemma_filter_everything(records, all);
    }
    lemma_sort_keeps_records(records);
    lemma_sort_ordered(records);
}

proof fn lemma_filter_everything(s: Seq<System>, all: spec_fn(System) -> bool)
    requires
        forall|x: System| #[trigger] all(x),
    ensures
        s.filter(all) == s,
    decreases s.len(),
{
    reveal(Seq::filter);
    if s.len() > 0 {
        lemma_filter_everything(s.drop_last(), all);
        assert(s.drop_last().push(s.last()) =~= s);
    }
}

/// Searching with the criteria `c1` followed by `c2` is searching with `c1`
/// and then searching that result with `c2`.
pub proof fn lemma_criteria_compose(
    records: Seq<System>,
    c1: Seq<SystemFilter>,
    c2: Seq<SystemFilter>,
)
    ensures
        search_result(records, c1 + c2) == search_result(search_result(records, c1), c2),
{
    let q1 = |s: System| satisfies_all(s, c1);
    let q2 = |s: System| satisfies_all(s, c2);
    let q12 = |s: System| satisfies_all(s, c1 + c2);
    assert forall|x: System| #[trigger] q12(x) == (q1(x) && q2(x)) by {
        lemma_satisfies_all_concat(x, c1, c2);
    }
    let m1 = records.filter(q1);
    lemma_sort_filter(m1, q2);
    lemma_sort_ordered(m1.filter(q2));
    lemma_sort_of_ordered(sort_by_name(m1.filter(q2)));
    lemma_filter_conjunction(records, q1, q2, q12);
}

/// The order of the criteria does not change a search.
pub proof fn lemma_criteria_commute(
    records: Seq<System>,
    c1: Seq<SystemFilter>,
    c2: Seq<SystemFilter>,
)
    ensures
        search_result(records, c1 + c2) == search_result(records, c2 + c1),
{
    let q12 = |s: System| satisfies_all(s, c1 + c2);
    let q21 = |s: System| satisfies_all(s, c2 + c1);
    assert forall|x: System| #[trigger] q21(x) == (q12(x) && q12(x)) by {
        lemma_satisfies_all_concat(x, c1, c2);
        lemma_satisfies_all_concat(x, c2, c1);
    }
    lemma_filter_conjunction(records, q12, q12, q21);
    assert forall|x: System| #[trigger] q12(x) == (q12(x) && q12(x)) by {}
    lemma_filter_conjunction(records, q12, q12, q12);
}

/// A distance limit admits a record at exactly that distance, and a record
/// at the origin itself, whenever the limit is not negative.
pub proof fn lemma_distance_limit_inclusive(s: System, origin: Coords, limit: i64)
    requires
        limit >= 0,
    ensures
        squared_distance(origin, s.coords) == limit * limit ==> satisfies(
            s,
            SystemFilter::MaximumDistanceFrom(origin, limit),
        ),
        s.coords == origin ==> satisfies(s, SystemFilter::MaximumDistanceFrom(origin, limit)),
{
    assert(limit * limit >= 0) by (nonlinear_arith)
        requires limit >= 0;
}

/// A record without stations fails every positive station count.
pub proof fn lemma_no_stations_fail_count(s: System, types: Vec<String>, n: usize)
    requires
        s.stations@.len() == 0,
        n > 0,
    ensures
        !satisfies(s, SystemFilter::MinimumStationCount(types, n)),
{
    reveal(Seq::filter);
}

/// A record without factions passes both faction criteria.
pub proof fn lemma_no_factions_pass(s: System, n: usize)
    requires
        s.factions@.len() == 0,
    ensures
        satisfies(s, SystemFilter::ExcludeSystemsWithPlayerFactions),
        satisfies(s, SystemFilter::MaximumFactionCount(n)),
{
}

} // verus!
