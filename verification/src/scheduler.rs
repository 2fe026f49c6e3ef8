//! The publishing scheduler: the state machine at the core of the publisher.
//!
//! The scheduler owns the enabled/disabled flag and the rotation cursor over
//! the source registry. A timer outside the library fires `tick` once per
//! interval; the control surface calls `start_publishing`, `stop_publishing`
//! and `get_status`. The caller is expected to hold the scheduler behind one
//! mutual-exclusion primitive, so every call here sees and leaves a whole,
//! untorn state.
//!
//! `SchedulerView` with `spec_enable`, `spec_disable` and `spec_tick` is the
//! mathematical model of that state machine; every method's contract says
//! which of those transitions it performs.

use crate::registry::SourceRegistry;
use crate::station::{StationView, WeatherRecord};
use vstd::prelude::*;

verus! {

/// The mathematical state of the scheduler.
#[verifier::ext_equal]
pub struct SchedulerView {
    pub enabled: bool,
    pub cursor: int,
    pub stations: Seq<StationView>,
}

impl SchedulerView {
    /// The cursor always points into the registry, which is never empty.
    pub open spec fn wf(self) -> bool {
        0 <= self.cursor < self.stations.len()
    }
}

/// The `enable` transition: sets the flag, touches nothing else.
pub open spec fn spec_enable(s: SchedulerView) -> SchedulerView {
    SchedulerView { enabled: true, ..s }
}

/// The `disable` transition: clears the flag, touches nothing else.
pub open spec fn spec_disable(s: SchedulerView) -> SchedulerView {
    SchedulerView { enabled: false, ..s }
}

/// Whether a tick in state `s` emits a record.
pub open spec fn spec_emits(s: SchedulerView) -> bool {
    s.enabled
}

/// The registry index an emitting tick in state `s` selects: the cursor
/// value before the advance.
pub open spec fn spec_selected(s: SchedulerView) -> int {
    s.cursor
}

/// The `tick` transition: when enabled, the cursor advances by one position,
/// wrapping past the last index; when disabled, the state is untouched.
pub open spec fn spec_tick(s: SchedulerView) -> SchedulerView {
    if s.enabled {
        SchedulerView { cursor: (s.cursor + 1) % (s.stations.len() as int), ..s }
    } else {
        s
    }
}

/// The state after `n` ticks from `s`, with no control call in between.
pub open spec fn run_ticks(s: SchedulerView, n: nat) -> SchedulerView
    decreases n,
{
    if n == 0 {
        s
    } else {
        spec_tick(run_ticks(s, (n - 1) as nat))
    }
}

/// What a control operation reports back: the exact wire strings of the
/// control surface and the flag value after the operation.
pub struct StatusResponse {
    pub status: String,
    pub publishing: bool,
}

/// The publishing scheduler: flag, cursor and registry.
pub struct Scheduler {
    registry: SourceRegistry,
    enabled: bool,
    cursor: usize,
}

impl View for Scheduler {
    type V = SchedulerView;

    closed spec fn view(&self) -> SchedulerView {
        SchedulerView {
            enabled: self.enabled,
            cursor: self.cursor as int,
            stations: self.registry@,
        }
    }
}

impl Scheduler {
    /// The scheduler is well formed exactly when its model is.
    pub open spec fn wf(&self) -> bool {
        self@.wf()
    }

    /// Builds a scheduler over a non-empty registry, with the cursor at the
    /// first station and the flag as configured.
    pub fn new(registry: SourceRegistry, start_enabled: bool) -> (r: Self)
        requires
            registry.wf(),
        ensures
            r.wf(),
            r@.enabled == start_enabled,
            r@.cursor == 0,
            r@.stations == registry@,
    {
        Scheduler { registry, enabled: start_enabled, cursor: 0 }
    }

    /// Turns publishing on; idempotent, never fails, leaves the cursor alone.
    pub fn enable(&mut self)
        ensures
            final(self)@ == spec_enable(old(self)@),
    {
        self.enabled = true;
    }

    /// Turns publishing off; idempotent, never fails, leaves the cursor alone.
    pub fn disable(&mut self)
        ensures
            final(self)@ == spec_disable(old(self)@),
    {
        self.enabled = false;
    }

    /// Reads the flag without any transition.
    pub fn query(&self) -> (r: bool)
        ensures
            r == self@.enabled,
    {
        self.enabled
    }

    /// One firing of the repeating timer.
    ///
    /// Disabled: no record is synthesized and the state is untouched.
    /// Enabled: selects the station at the cursor, advances the cursor by one
    /// (wrapping), and returns the record synthesized for the selection, its
    /// primary reading the station's baseline plus `deviation_centi`.
    pub fn tick(&mut self, deviation_centi: i32) -> (r: Option<WeatherRecord>)
        requires
            old(self).wf(),
        ensures
            final(self).wf(),
            final(self)@ == spec_tick(old(self)@),
            r is Some <==> spec_emits(old(self)@),
            r matches Some(rec) ==> {
                &&& rec.station_id == old(self)@.stations[spec_selected(old(self)@)].id
                &&& rec.temperature_centi == old(self)@.stations[spec_selected(
                    old(self)@,
                )].baseline_centi + deviation_centi
                &&& rec.humidity < 100
            },
    {
        if !self.enabled {
            None
        } else {
            let count = self.registry.len();
            let idx = self.cursor;
            self.cursor = (idx + 1) % count;
            let station = self.registry.get(idx);
            let rec = station.generate_data(deviation_centi);
            Some(rec)
        }
    }

    /// The control operation behind the "start" trigger.
    pub fn start_publishing(&mut self) -> (r: StatusResponse)
        ensures
            final(self)@ == spec_enable(old(self)@),
            r.publishing == true,
            r.status@ == "Started publishing every 1 second"@,
    {
        self.enable();
        StatusResponse { status: "Started publishing every 1 second".to_owned(), publishing: true }
    }

    /// The control operation behind the "stop" trigger.
    pub fn stop_publishing(&mut self) -> (r: StatusResponse)
        ensures
            final(self)@ == spec_disable(old(self)@),
            r.publishing == false,
            r.status@ == "Stopped publishing"@,
    {
        self.disable();
        StatusResponse { status: "Stopped publishing".to_owned(), publishing: false }
    }

    /// The control operation behind the "status" trigger: read-only.
    pub fn get_status(&self) -> (r: StatusResponse)
        ensures
            r.publishing == self@.enabled,
            self@.enabled ==> r.status@ == "Publishing"@,
            !self@.enabled ==> r.status@ == "Stopped"@,
    {
        let publishing = self.enabled;
        let status = if publishing {
            "Publishing".to_owned()
        } else {
            "Stopped".to_owned()
        };
        StatusResponse { status, publishing }
    }
}

} // verus!
