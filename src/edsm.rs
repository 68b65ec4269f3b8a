//! Records as the EDSM data dump gives them, where most fields may be
//! missing, and their reading as search records.
use vstd::prelude::*;

use crate::domain;
use crate::domain::Coords;

verus! {

/// A faction of a dumped system.
#[derive(Debug, PartialEq, Eq, Structural, Clone, Copy)]
pub struct Faction {
    pub is_player: bool,
}

/// A station of a dumped system; its type is always given.
#[derive(Debug, PartialEq, Clone)]
pub struct Station {
    pub station_type: String,
}

/// The faction in control of a dumped system.
#[derive(Debug, PartialEq, Clone)]
pub struct ControllingFaction {
    pub allegiance: Option<String>,
}

/// A dumped system.
#[derive(Debug, PartialEq, Clone)]
pub struct System {
    pub name: String,
    pub coords: Coords,
    pub population: Option<u128>,
    pub controlling_faction: ControllingFaction,
    pub factions: Option<Vec<Faction>>,
    pub stations: Option<Vec<Station>>,
    pub allegiance: Option<String>,
    pub government: Option<String>,
}

/// The text of an optional field, empty when it is missing.
pub open spec fn text_or_empty(t: Option<String>) -> Seq<char> {
    match t {
        Some(s) => s@,
        None => seq![],
    }
}

/// The entries of an optional list, none when it is missing.
pub open spec fn entries<T>(list: Option<Vec<T>>) -> Seq<T> {
    match list {
        Some(v) => v@,
        None => seq![],
    }
}

/// Whether the search station has exactly the type `t`.
pub open spec fn typed_as(station: domain::Station, t: Seq<char>) -> bool {
    match station.station_type {
        Some(x) => x@ == t,
        None => false,
    }
}

fn text_or_empty_of(t: &Option<String>) -> (r: String)
    ensures
        r@ == text_or_empty(*t),
{
    match t {
        Some(s) => s.clone(),
        None => String::new(),
    }
}

impl System {
    pub fn name(&self) -> (r: &String)
        ensures
            r == &self.name,
    {
        &self.name
    }

    /// The allegiance, empty when it is missing.
    pub fn allegiance(&self) -> (r: String)
        ensures
            r@ == text_or_empty(self.allegiance),
    {
        text_or_empty_of(&self.allegiance)
    }

    /// The government, empty when it is missing.
    pub fn government(&self) -> (r: String)
        ensures
            r@ == text_or_empty(self.government),
    {
        text_or_empty_of(&self.government)
    }

    /// The stations, each with its type; none when the list is missing.
    pub fn stations(&self) -> (r: Vec<domain::Station>)
        ensures
            r@.len() == entries(self.stations).len(),
            forall|i: int|
                0 <= i < r@.len() ==> typed_as(
                    #[trigger] r@[i],
                    entries(self.stations)[i].station_type@,
                ),
    {
        let mut r: Vec<domain::Station> = Vec::new();
        match &self.stations {
            Some(stations) => {
                let mut i: usize = 0;
                while i < stations.len()
                    invariant
                        i <= stations@.len(),
                        self.stations == Some(*stations),
                        r@.len() == i,
                        forall|k: int|
                            0 <= k < i ==> typed_as(#[trigger] r@[k], stations@[k].station_type@),
                    decreases stations@.len() - i,
                {
                    r.push(domain::Station { station_type: Some(stations[i].station_type.clone()) });
                    i = i + 1;
                }
            },
            None => {},
        }
        r
    }

    /// The factions; none when the list is missing.
    pub fn factions(&self) -> (r: Vec<domain::Faction>)
        ensures
            r@.len() == entries(self.factions).len(),
            forall|i: int|
                0 <= i < r@.len() ==> (#[trigger] r@[i]).is_player == entries(
                    self.factions,
                )[i].is_player,
    {
        let mut r: Vec<domain::Faction> = Vec::new();
        match &self.factions {
            Some(factions) => {
                let mut i: usize = 0;
                while i < factions.len()
                    invariant
                        i <= factions@.len(),
                        self.factions == Some(*factions),
                        r@.len() == i,
                        forall|k: int|
                            0 <= k < i ==> (#[trigger] r@[k]).is_player == factions@[k].is_player,
                    decreases factions@.len() - i,
                {
                    r.push(domain::Faction { is_player: factions[i].is_player });
                    i = i + 1;
                }
            },
            None => {},
        }
        r
    }

    pub fn coordinates(&self) -> (r: Coords)
        ensures
            r == self.coords,
    {
        self.coords
    }

    /// The population, zero when it is missing.
    pub fn population(&self) -> (r: u128)
        ensures
            r == match self.population {
                Some(p) => p,
                None => 0,
            },
    {
        match self.population {
            Some(p) => p,
            None => 0,
        }
    }

    /// The search record that this dumped system reads as.
    pub fn to_system(&self) -> (r: domain::System)
        ensures
            r.name@ == self.name@,
            r.allegiance@ == text_or_empty(self.allegiance),
            r.government@ == text_or_empty(self.government),
            r.coords == self.coords,
            r.population == match self.population {
                Some(p) => p,
                None => 0,
            },
            r.stations@.len() == entries(self.stations).len(),
            forall|i: int|
                0 <= i < r.stations@.len() ==> typed_as(
                    #[trigger] r.stations@[i],
                    entries(self.stations)[i].station_type@,
                ),
            r.factions@.len() == entries(self.factions).len(),
            forall|i: int|
                0 <= i < r.factions@.len() ==> (#[trigger] r.factions@[i]).is_player == entries(
                    self.factions,
                )[i].is_player,
    {
        domain::System {
            name: self.name.clone(),
            allegiance: self.allegiance(),
            government: self.government(),
            coords: self.coordinates(),
            population: self.population(),
            stations: self.stations(),
            factions: self.factions(),
        }
    }
}

} // verus!
