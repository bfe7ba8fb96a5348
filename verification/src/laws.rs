//! The engine's general laws, proved once and for all: pre-alerts fire at
//! most once, the commit to shutdown is one-way, alert normalization is
//! idempotent, and a persist-then-load round trip keeps the store up to the
//! documented downgrade.
use vstd::prelude::*;
use crate::history::HISTORY_LIMIT;
use crate::history::spec_history_after_push;
use crate::schedule::spec_committed;
use crate::schedule::spec_compute_shutdown_at_ms;
use crate::schedule::spec_is_execution_started;
use crate::schedule::spec_sanitize_for_persist;
use crate::schedule::spec_should_initiate;
use crate::settings::FINAL_WARNING_MAX_SEC;
use crate::settings::FINAL_WARNING_MIN_SEC;
use crate::settings::spec_is_normalized_alerts;
use crate::settings::spec_sorted_desc;
use crate::store::spec_persisted_from_store;
use crate::store::spec_store_from_persisted;
use crate::tick::spec_newly_fired;
use crate::tick::spec_tick_armed_time_rel;
use crate::tick::spec_tick_trigger;
use crate::notify::spec_remaining_sec;
use crate::types::ActiveSchedule;
use crate::types::ExecutionEvent;
use crate::types::PersistedState;
use crate::types::SchedulerStore;
use crate::types::opt_request_eq;
use crate::types::schedule_eq;
use crate::types::settings_eq;

verus! {

/// Two strictly descending sequences with the same members are the same
/// sequence.
pub proof fn lemma_sorted_desc_same_members(s1: Seq<u64>, s2: Seq<u64>)
    requires
        spec_sorted_desc(s1),
        spec_sorted_desc(s2),
        forall|v: u64| #[trigger] s1.contains(v) <==> s2.contains(v),
    ensures
        s1 == s2,
    decreases s1.len(),
{
    if s1.len() == 0 {
        if s2.len() > 0 {
            assert(s2.contains(s2[0]));
            assert(s1.contains(s2[0]));
        }
        assert(s1 =~= s2);
    } else {
        assert(s1.contains(s1[0]));
        assert(s2.contains(s1[0]));
        assert(s2.len() > 0);
        assert(s1[0] == s2[0]) by {
            let j = choose|j: int| 0 <= j < s2.len() && s2[j] == s1[0];
            if j > 0 {
                assert(s2[0] > s2[j]);
                assert(s2.contains(s2[0]));
                assert(s1.contains(s2[0]));
                let i = choose|i: int| 0 <= i < s1.len() && s1[i] == s2[0];
                if i > 0 {
                    assert(s1[0] > s1[i]);
                }
            }
        }
        let t1 = s1.subrange(1, s1.len() as int);
        let t2 = s2.subrange(1, s2.len() as int);
        assert(spec_sorted_desc(t1)) by {
            assert forall|p: int, q: int| 0 <= p < q < t1.len() implies #[trigger] t1[p]
                > #[trigger] t1[q] by {
                assert(t1[p] == s1[p + 1] && t1[q] == s1[q + 1]);
            }
        }
        assert(spec_sorted_desc(t2)) by {
            assert forall|p: int, q: int| 0 <= p < q < t2.len() implies #[trigger] t2[p]
                > #[trigger] t2[q] by {
                assert(t2[p] == s2[p + 1] && t2[q] == s2[q + 1]);
            }
        }
        assert forall|v: u64| #[trigger] t1.contains(v) <==> t2.contains(v) by {
            assert(t1.contains(v) <==> (s1.contains(v) && v != s1[0])) by {
                if t1.contains(v) {
                    let k = choose|k: int| 0 <= k < t1.len() && t1[k] == v;
                    assert(s1[k + 1] == v);
                    assert(s1.contains(v));
                    assert(s1[0] > s1[k + 1]);
                }
                if s1.contains(v) && v != s1[0] {
                    let k = choose|k: int| 0 <= k < s1.len() && s1[k] == v;
                    assert(k > 0);
                    assert(t1[k - 1] == v);
                    assert(t1.contains(v));
                }
            }
            assert(t2.contains(v) <==> (s2.contains(v) && v != s2[0])) by {
                if t2.contains(v) {
                    let k = choose|k: int| 0 <= k < t2.len() && t2[k] == v;
                    assert(s2[k + 1] == v);
                    assert(s2.contains(v));
                    assert(s2[0] > s2[k + 1]);
                }
                if s2.contains(v) && v != s2[0] {
                    let k = choose|k: int| 0 <= k < s2.len() && s2[k] == v;
                    assert(k > 0);
                    assert(t2[k - 1] == v);
                    assert(t2.contains(v));
                }
            }
        }
        lemma_sorted_desc_same_members(t1, t2);
        assert(s1 =~= s2) by {
            assert forall|k: int| 0 <= k < s1.len() implies s1[k] == s2[k] by {
                if k > 0 {
                    assert(t1[k - 1] == t2[k - 1]);
                }
            }
        }
    }
}

/// Normalization of pre-alert lists is deterministic: any two outputs for
/// the same input are the same list.
pub proof fn lemma_normalized_alerts_unique(input: Seq<u64>, out1: Seq<u64>, out2: Seq<u64>)
    requires
        spec_is_normalized_alerts(input, out1),
        spec_is_normalized_alerts(input, out2),
    ensures
        out1 == out2,
{
    if exists|i: int| 0 <= i < input.len() && crate::settings::spec_alert_in_range(
        #[trigger] input[i],
    ) {
        lemma_sorted_desc_same_members(out1, out2);
    }
}

/// Normalizing is idempotent: a normalized list normalizes to itself, so
/// applying the normalization twice yields what one application yields.
pub proof fn lemma_normalize_alerts_idempotent(input: Seq<u64>, output: Seq<u64>)
    requires
        spec_is_normalized_alerts(input, output),
    ensures
        spec_is_normalized_alerts(output, output),
{
    if exists|i: int| 0 <= i < input.len() && crate::settings::spec_alert_in_range(
        #[trigger] input[i],
    ) {
        assert(output.len() > 0) by {
            let i = choose|i: int|
                0 <= i < input.len() && crate::settings::spec_alert_in_range(#[trigger] input[i]);
            assert(output.contains(input[i]));
        }
        assert(crate::settings::spec_alert_in_range(output[0])) by {
            assert(output.contains(output[0]));
        }
        assert forall|v: u64| #[trigger]
            output.contains(v) <==> output.contains(v) && crate::settings::spec_alert_in_range(
                v,
            ) by {}
    } else {
        assert(output == crate::settings::spec_default_alerts());
        assert(output[0] == 600u64 && output[1] == 300u64 && output[2] == 60u64);
        assert(crate::settings::spec_alert_in_range(output[0]));
        assert(spec_sorted_desc(output));
        assert forall|v: u64| #[trigger]
            output.contains(v) implies crate::settings::spec_alert_in_range(v) by {
            let k = choose|k: int| 0 <= k < output.len() && output[k] == v;
            assert(k == 0 || k == 1 || k == 2);
        }
    }
}

/// Each pre-alert threshold fires at most once: a second tick at the same
/// remaining time adds nothing to the fired set.
pub proof fn lemma_pre_alert_fires_at_most_once(
    a: ActiveSchedule,
    now1: i64,
    tz1: crate::tick::TzObservation,
    b: ActiveSchedule,
    now2: i64,
    tz2: crate::tick::TzObservation,
    c: ActiveSchedule,
)
    requires
        a.pre_alerts@.no_duplicates(),
        a.fired_alerts@.no_duplicates(),
        spec_tick_armed_time_rel(a, now1, tz1, b),
        spec_tick_armed_time_rel(b, now2, tz2, c),
        spec_tick_trigger(a, tz1) is Some,
        spec_tick_trigger(b, tz2) == spec_tick_trigger(a, tz1),
        spec_remaining_sec(spec_tick_trigger(a, tz1)->0, now2) == spec_remaining_sec(
            spec_tick_trigger(a, tz1)->0,
            now1,
        ),
    ensures
        c.fired_alerts@ == b.fired_alerts@,
{
    let t = spec_tick_trigger(a, tz1)->0;
    let rem = spec_remaining_sec(t, now1);
    assert(b.pre_alerts@ == a.pre_alerts@);
    assert forall|v: u64| !spec_newly_fired(b, rem, v) by {
        if spec_newly_fired(b, rem, v) {
            assert(a.pre_alerts@.contains(v));
            assert(spec_newly_fired(a, rem, v) || a.fired_alerts@.contains(v));
            assert(b.fired_alerts@.contains(v));
        }
    }
    assert forall|v: u64| #[trigger] c.fired_alerts@.contains(v) <==> b.fired_alerts@.contains(
        v,
    ) by {}
    assert(b.fired_alerts@.no_duplicates());
    assert(c.fired_alerts@.no_duplicates());
    assert(b.fired_alerts@.is_prefix_of(c.fired_alerts@));
    if c.fired_alerts@.len() > b.fired_alerts@.len() {
        let x = c.fired_alerts@[b.fired_alerts@.len() as int];
        assert(c.fired_alerts@.contains(x));
        assert(b.fired_alerts@.contains(x));
        let j = choose|j: int| 0 <= j < b.fired_alerts@.len() && b.fired_alerts@[j] == x;
        assert(c.fired_alerts@[j] == x);
    }
    assert(c.fired_alerts@ =~= b.fired_alerts@);
}

/// The commit to shutdown is one-way and one-time: once a schedule has
/// committed, it counts as started and can never satisfy the commit
/// condition again, at any later instant.
pub proof fn lemma_commit_is_irreversible(a: ActiveSchedule, now1: i64, now2: i64)
    requires
        spec_should_initiate(a, now1),
    ensures
        spec_is_execution_started(spec_committed(a, now1)),
        !spec_should_initiate(spec_committed(a, now1), now2),
{
}

/// The history never exceeds its cap, and what the cap forces out is
/// exactly the oldest entries: after an append, the kept old entries are a
/// suffix of the old history, in order.
pub proof fn lemma_history_cap(before: Seq<ExecutionEvent>, after: Seq<ExecutionEvent>)
    requires
        spec_history_after_push(before, after),
    ensures
        after.len() <= HISTORY_LIMIT,
        before.len() + 1 <= HISTORY_LIMIT ==> after.len() == before.len() + 1 && (forall|i: int|
            0 <= i < before.len() ==> #[trigger] after[i] == before[i]),
        before.len() + 1 > HISTORY_LIMIT ==> after.len() == HISTORY_LIMIT,
{
    if before.len() + 1 <= HISTORY_LIMIT {
        assert(crate::history::spec_push_start(before.len() as int) == 0);
        assert forall|i: int| 0 <= i < before.len() implies #[trigger] after[i] == before[i] by {
            assert(after[i - crate::history::spec_push_start(before.len() as int)] == before[i]);
        }
    }
}

/// A store in the form every store reachable through this crate has:
/// normalized settings, and an active schedule whose final-warning duration
/// is in range.
pub open spec fn spec_store_normal_form(s: SchedulerStore) -> bool {
    &&& spec_is_normalized_alerts(
        s.settings.default_pre_alerts@,
        s.settings.default_pre_alerts@,
    )
    &&& FINAL_WARNING_MIN_SEC <= s.settings.final_warning_sec <= FINAL_WARNING_MAX_SEC
    &&& match s.active {
        Some(a) => FINAL_WARNING_MIN_SEC <= a.final_warning_duration_sec <= FINAL_WARNING_MAX_SEC,
        None => true,
    }
}

/// Round trip: persisting a store and loading the snapshot back yields a
/// semantically equal store — settings, history, id sequence and last
/// request kept — except that the active schedule crosses the boundary in
/// its sanitized form: a transient `ShuttingDown` is downgraded to
/// `FinalWarning` with the commit stamp cleared, and the advisory shutdown
/// moment is recomputed. A schedule not in `ShuttingDown` whose advisory
/// moment was current comes back exactly as it was.
pub proof fn lemma_persist_round_trip(s: SchedulerStore, p: PersistedState, s2: SchedulerStore)
    requires
        spec_store_normal_form(s),
        spec_persisted_from_store(s, p),
        spec_store_from_persisted(p, s2),
    ensures
        settings_eq(s2.settings, s.settings),
        s2.history@ == s.history@,
        s2.id_seq == s.id_seq,
        opt_request_eq(s2.last_schedule_request, s.last_schedule_request),
        match s.active {
            None => s2.active is None,
            Some(a) => s2.active matches Some(b2) && schedule_eq(b2, spec_sanitize_for_persist(a)),
        },
        match s.active {
            Some(a) => (!(a.status is ShuttingDown) && a.shutdown_at_ms
                == spec_compute_shutdown_at_ms(a)) ==> (s2.active matches Some(b2) && schedule_eq(
                b2,
                a,
            )),
            None => true,
        },
{
    assert(settings_eq(s2.settings, s.settings)) by {
        lemma_normalized_alerts_unique(
            p.settings.default_pre_alerts@,
            s2.settings.default_pre_alerts@,
            s.settings.default_pre_alerts@,
        );
    }
    match s.active {
        None => {},
        Some(a) => {
            let b = p.active->0;
            let a1 = spec_sanitize_for_persist(a);
            let b2 = s2.active->0;
            assert(schedule_eq(b, a1));
            assert(b2 == crate::schedule::spec_sanitize_from_persist(
                b,
                crate::settings::spec_normalize_final_warning_sec(p.settings.final_warning_sec),
            ));
            assert(!(b.status is ShuttingDown));
            assert(FINAL_WARNING_MIN_SEC <= b.final_warning_duration_sec <= FINAL_WARNING_MAX_SEC);
            assert(spec_compute_shutdown_at_ms(b) == spec_compute_shutdown_at_ms(a1));
            assert(schedule_eq(b2, a1));
            if !(a.status is ShuttingDown) && a.shutdown_at_ms == spec_compute_shutdown_at_ms(a) {
                assert(schedule_eq(a1, a)) by {
                    assert(spec_compute_shutdown_at_ms(
                        ActiveSchedule {
                            final_warning_duration_sec: a.final_warning_duration_sec,
                            status: a.status,
                            shutdown_initiated_at_ms: a.shutdown_initiated_at_ms,
                            ..a
                        },
                    ) == spec_compute_shutdown_at_ms(a));
                }
                assert(schedule_eq(b2, a));
            }
        },
    }
}

} // verus!
