//! The laws of the publishing scheduler, proved over its model.
//!
//! Each proof function here states one guarantee of the state machine in
//! `scheduler`: the round-robin selection order, the freeze under a disabled
//! flag, the immediacy of control operations, and the isolation of transport
//! failures from scheduling.

use crate::scheduler::{
    run_ticks, spec_disable, spec_emits, spec_enable, spec_selected, spec_tick, SchedulerView,
};
use vstd::arithmetic::div_mod::{lemma_add_mod_noop_right, lemma_mod_pos_bound, lemma_small_mod};
use vstd::prelude::*;

verus! {

/// After `n` ticks from an enabled, well-formed state, the scheduler is still
/// enabled over the same stations and its cursor stands `n` positions past
/// where it started, modulo the registry size.
pub proof fn lemma_run_ticks_cursor(s: SchedulerView, n: nat)
    requires
        s.wf(),
        s.enabled,
    ensures
        run_ticks(s, n).wf(),
        run_ticks(s, n).enabled,
        run_ticks(s, n).stations == s.stations,
        run_ticks(s, n).cursor == (s.cursor + n) % (s.stations.len() as int),
    decreases n,
{
    let k = s.stations.len() as int;
    if n == 0 {
        lemma_small_mod(s.cursor as nat, s.stations.len());
    } else {
        lemma_run_ticks_cursor(s, (n - 1) as nat);
        lemma_add_mod_noop_right(1, s.cursor + n - 1, k);
        lemma_mod_pos_bound(s.cursor + n, k);
    }
}

/// Round-robin law: with publishing enabled throughout, the i-th tick selects
/// the registry index `(c + i) mod K`, where `c` is the starting cursor and
/// `K` the registry size — every station in order, wrapping to the first
/// after the last, one selection per tick.
pub proof fn lemma_round_robin(s: SchedulerView, n: nat)
    requires
        s.wf(),
        s.enabled,
    ensures
        forall|i: nat|
            i < n ==> spec_emits(#[trigger] run_ticks(s, i)) && spec_selected(run_ticks(s, i)) == (
            s.cursor + i) % (s.stations.len() as int),
{
    assert forall|i: nat| i < n implies spec_emits(#[trigger] run_ticks(s, i)) && spec_selected(
        run_ticks(s, i),
    ) == (s.cursor + i) % (s.stations.len() as int) by {
        lemma_run_ticks_cursor(s, i);
    }
}

/// While the flag is down, ticks change nothing at all.
pub proof fn lemma_disabled_frozen(s: SchedulerView, n: nat)
    requires
        !s.enabled,
    ensures
        run_ticks(s, n) == s,
    decreases n,
{
    if n > 0 {
        lemma_disabled_frozen(s, (n - 1) as nat);
    }
}

/// Disabling stops emission at once and freezes the cursor: no tick emits
/// until re-enabled, and re-enabling resumes rotation exactly where it
/// stopped, whatever number of ticks fired in between.
pub proof fn lemma_cursor_survives_disable(s: SchedulerView, n: nat)
    requires
        s.wf(),
    ensures
        forall|i: nat| i <= n ==> !spec_emits(#[trigger] run_ticks(spec_disable(s), i)),
        run_ticks(spec_disable(s), n) == spec_disable(s),
        spec_enable(run_ticks(spec_disable(s), n)).enabled,
        spec_enable(run_ticks(spec_disable(s), n)).cursor == s.cursor,
        spec_selected(spec_enable(run_ticks(spec_disable(s), n))) == s.cursor,
{
    let d = spec_disable(s);
    lemma_disabled_frozen(d, n);
    assert forall|i: nat| i <= n implies !spec_emits(#[trigger] run_ticks(d, i)) by {
        lemma_disabled_frozen(d, i);
    }
}

/// Control operations take effect at once and ticks never touch the flag:
/// what `query` reads after a transition is exactly what the transition set.
pub proof fn lemma_query_reflects_latest(s: SchedulerView)
    ensures
        spec_enable(s).enabled,
        !spec_disable(s).enabled,
        spec_enable(s).cursor == s.cursor,
        spec_disable(s).cursor == s.cursor,
        spec_tick(s).enabled == s.enabled,
{
}

/// One tick as the transport sees it: the record is handed to the sink and
/// the sink's verdict is `sink_ok`. The scheduler's next state is `spec_tick`
/// of the old one; the verdict enters it nowhere.
pub open spec fn spec_tick_reported(s: SchedulerView, sink_ok: bool) -> SchedulerView {
    spec_tick(s)
}

/// A transport failure on one tick neither alters the flag nor the state the
/// next tick starts from: after a failed submit the scheduler stands exactly
/// where it would after a successful one, and the next enabled tick selects
/// the successor index on schedule.
pub proof fn lemma_sink_failure_isolated(s: SchedulerView, sink_ok: bool)
    requires
        s.wf(),
    ensures
        spec_tick_reported(s, sink_ok) == spec_tick_reported(s, true),
        spec_tick_reported(s, sink_ok).enabled == s.enabled,
        spec_tick_reported(s, sink_ok).wf(),
        s.enabled ==> spec_emits(spec_tick_reported(s, sink_ok)) && spec_selected(
            spec_tick_reported(s, sink_ok),
        ) == (s.cursor + 1) % (s.stations.len() as int),
{
    if s.enabled {
        lemma_mod_pos_bound(s.cursor + 1, s.stations.len() as int);
    }
}

} // verus!
