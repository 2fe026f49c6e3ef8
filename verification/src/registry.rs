//! The source registry: an ordered, fixed list of stations.
//!
//! The registry is built once, never mutated, and defines rotation order by
//! index position. Construction fails on an empty list: rotation over an
//! empty registry is undefined, so no scheduler can be built from one.

use crate::station::{StationView, WeatherStation};
use vstd::prelude::*;

verus! {

/// The one construction failure: an empty source list.
#[derive(Clone, Copy, Debug, PartialEq, Eq, Structural)]
pub enum RegistryError {
    Empty,
}

/// An ordered, immutable sequence of stations.
pub struct SourceRegistry {
    stations: Vec<WeatherStation>,
}

impl View for SourceRegistry {
    type V = Seq<StationView>;

    closed spec fn view(&self) -> Seq<StationView> {
        self.stations@.map_values(|st: WeatherStation| st@)
    }
}

impl SourceRegistry {
    /// A registry is well formed exactly when it holds at least one station.
    pub open spec fn wf(&self) -> bool {
        self@.len() > 0
    }

    /// Builds the registry, rejecting an empty list.
    pub fn new(stations: Vec<WeatherStation>) -> (r: Result<Self, RegistryError>)
        ensures
            r is Ok <==> stations@.len() > 0,
            r matches Ok(reg) ==> reg.wf() && reg@ == stations@.map_values(
                |st: WeatherStation| st@,
            ),
            r matches Err(e) ==> e == RegistryError::Empty,
    {
        if stations.len() == 0 {
            Err(RegistryError::Empty)
        } else {
            Ok(SourceRegistry { stations })
        }
    }

    /// The number of stations.
    pub fn len(&self) -> (n: usize)
        ensures
            n == self@.len(),
    {
        self.stations.len()
    }

    /// Read-only access to the station at index `i`.
    pub fn get(&self, i: usize) -> (st: &WeatherStation)
        requires
            i < self@.len(),
        ensures
            st@ == self@[i as int],
    {
        &self.stations[i]
    }
}

} // verus!
