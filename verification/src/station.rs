//! Simulated weather stations and the records they synthesize.
//!
//! A station is one source of the registry: an identity, a display name and a
//! baseline temperature. Temperatures are carried as fixed-point integers in
//! centi-units (one hundredth of a degree), so a baseline of 10 degrees is
//! stored as `1000`. The randomized part of the primary reading enters as an
//! explicit deviation argument; the humidity reading and the timestamp are
//! drawn inside `generate_data`.

use crate::sampling;
use vstd::prelude::*;

verus! {

/// One synthesized measurement: the wire contract of the publisher.
///
/// `temperature_centi` is the primary reading in centi-units; `humidity` is a
/// percentage in `[0, 100)`; `ts_us` is microseconds since the Unix epoch.
#[derive(Clone, Copy, Debug, PartialEq, Eq, Structural)]
pub struct WeatherRecord {
    pub station_id: u8,
    pub temperature_centi: i64,
    pub humidity: u8,
    pub ts_us: i64,
}

/// One simulated source: immutable after registry construction.
pub struct WeatherStation {
    pub id: u8,
    pub name: String,
    avg_temp_centi: i32,
}

/// The mathematical content of a station: its identity, name and baseline.
pub struct StationView {
    pub id: int,
    pub name: Seq<char>,
    pub baseline_centi: int,
}

impl View for WeatherStation {
    type V = StationView;

    closed spec fn view(&self) -> StationView {
        StationView {
            id: self.id as int,
            name: self.name@,
            baseline_centi: self.avg_temp_centi as int,
        }
    }
}

impl WeatherStation {
    /// Builds a station with the given identity, name and baseline
    /// temperature in centi-units.
    pub fn new(id: u8, name: &str, avg_temp_centi: i32) -> (r: Self)
        ensures
            r@.id == id,
            r@.name == name@,
            r@.baseline_centi == avg_temp_centi,
    {
        Self { id, name: name.to_owned(), avg_temp_centi }
    }

    /// Synthesizes one record for this station.
    ///
    /// The primary reading is the station's baseline plus the given deviation,
    /// both in centi-units; the humidity is a fresh uniform draw below 100 and
    /// the timestamp is taken from the wall clock at generation time.
    pub fn generate_data(&self, deviation_centi: i32) -> (r: WeatherRecord)
        ensures
            r.station_id == self@.id,
            r.temperature_centi == self@.baseline_centi + deviation_centi,
            r.humidity < 100,
    {
        let temperature_centi: i64 = self.avg_temp_centi as i64 + deviation_centi as i64;
        WeatherRecord {
            station_id: self.id,
            temperature_centi,
            humidity: sampling::random_below(100),
            ts_us: sampling::now_micros(),
        }
    }

    /// The station's display name.
    pub fn name(&self) -> (r: &str)
        ensures
            r@ == self@.name,
    {
        self.name.as_str()
    }
}

} // verus!
