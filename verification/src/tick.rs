//! The once-per-second tick of the schedule state machine: pre-alerts that
//! fire at most once, entry into the final warning, the guarded revert of a
//! process-exit warning, timezone realignment, and the decision — never
//! taken here — to hand over to execution. The tick only observes the
//! clock, the timezone and the process scan through its arguments, so what
//! it does with them is pinned exactly.
use vstd::prelude::*;
use vstd::string::StringExecFns;
use vstd::seq_lib::*;
use crate::history::HISTORY_LIMIT;
use crate::history::push_event;
use crate::history::lemma_event_survives_push;
use crate::history::lemma_within_implies_has;
use crate::history::spec_event;
use crate::history::spec_has_event;
use crate::history::spec_has_event_within;
use crate::matcher::ProcessMatchResult;
use crate::matcher::ProcessMatchSource;
use crate::matcher::spec_source_label;
use crate::matcher::process_match_source_label;
use crate::notify::final_warning_notification_body;
use crate::notify::pre_alert_notification_body;
use crate::notify::process_exit_final_warning_notification_body;
use crate::notify::spec_final_warning_body;
use crate::notify::spec_pre_alert_body;
use crate::notify::spec_process_exit_final_warning_body;
use crate::notify::spec_remaining_sec;
use crate::selector::no_fail_open_process_exit_reason;
use crate::selector::normalize_and_validate_process_selector;
use crate::selector::reset_process_exit_on_selector_failure;
use crate::selector::spec_no_fail_open_prefix;
use crate::selector::spec_no_fail_open_suffix;
use crate::selector::spec_validated_selector;
use crate::schedule::spec_compute_shutdown_at_ms;
use crate::schedule::sync_shutdown_at_ms;
use crate::store::apply_process_exit_fail_safe_cancel;
use crate::store::copy_u32_vec;
use crate::text::spec_decimal;
use crate::text::str_eq;
use crate::text::u64_to_string;
use crate::types::ActiveSchedule;
use crate::types::ProcessSelector;
use crate::types::ScheduleMode;
use crate::types::ScheduleStatus;
use crate::types::SchedulerStore;

verus! {

/// What the tick learned about the local timezone: the current offset, and
/// — when the caller found the offset changed and could re-resolve the
/// wall-clock target — the recomputed trigger instant.
#[derive(Debug, Clone, Copy, PartialEq, Eq, Structural)]
pub struct TzObservation {
    pub current_offset_minutes: i32,
    pub recomputed_target_ms: Option<i64>,
}

/// What the process scan reported for this tick: not requested, a selector
/// that failed validation, or a liveness verdict — each stamped with the
/// schedule and status it was taken against, so a stale scan is never
/// applied.
#[derive(Debug, Clone, PartialEq, Eq)]
pub enum ScanOutcome {
    NotRequested,
    Invalid { schedule_id: String, status: ScheduleStatus, reason: String },
    Ready { schedule_id: String, status: ScheduleStatus, result: ProcessMatchResult },
}

/// What one tick decided: whether the store changed (and must be
/// persisted), the notification texts owed, and the schedule whose
/// execution is due.
#[derive(Debug, Clone, PartialEq, Eq)]
pub struct TickEffects {
    pub changed: bool,
    pub notifications: Vec<String>,
    pub should_execute: Option<String>,
}

/// Whether a scan is wanted before the tick, and with what.
#[derive(Debug, Clone, PartialEq, Eq)]
pub enum ScanRequest {
    NotNeeded,
    Invalid { schedule_id: String, status: ScheduleStatus, reason: String },
    Needed {
        schedule_id: String,
        status: ScheduleStatus,
        selector: ProcessSelector,
        tracked_pids: Vec<u32>,
    },
}

/// Decide whether this tick needs a process scan: only an armed or warning
/// process-exit schedule is scanned, and a selector that no longer
/// validates asks for the fail-safe instead of a scan.
pub fn plan_process_scan(store: &SchedulerStore) -> (r: ScanRequest)
    ensures
        match store.active {
            None => r is NotNeeded,
            Some(a) => {
                if !(a.mode is ProcessExit) || !(a.status is Armed || a.status is FinalWarning) {
                    r is NotNeeded
                } else {
                    match a.process_selector {
                        None => r matches ScanRequest::Invalid { schedule_id, status, reason } && schedule_id@
                            == a.id@ && status == a.status && reason@ == spec_no_fail_open_prefix()
                            + "process selector is missing"@ + spec_no_fail_open_suffix(),
                        Some(_) => match r {
                            ScanRequest::Needed { schedule_id, status, selector, tracked_pids } => {
                                &&& schedule_id@ == a.id@
                                &&& status == a.status
                                &&& spec_validated_selector(
                                    a.process_selector,
                                    Result::<ProcessSelector, String>::Ok(selector),
                                )
                                &&& tracked_pids@ == a.process_tree_pids@
                            },
                            ScanRequest::Invalid { schedule_id, status, reason } => {
                                &&& schedule_id@ == a.id@
                                &&& status == a.status
                                &&& exists|e: Seq<char>|
                                    reason@ == spec_no_fail_open_prefix() + e
                                        + spec_no_fail_open_suffix()
                            },
                            _ => false,
                        },
                    }
                }
            },
        },
{
    let active = match &store.active {
        None => {
            return ScanRequest::NotNeeded;
        },
        Some(a) => a,
    };
    if !matches!(active.mode, ScheduleMode::ProcessExit) || !matches!(
        active.status,
        ScheduleStatus::Armed | ScheduleStatus::FinalWarning,
    ) {
        return ScanRequest::NotNeeded;
    }
    match normalize_and_validate_process_selector(active.process_selector.as_ref()) {
        Ok(selector) => ScanRequest::Needed {
            schedule_id: active.id.clone(),
            status: active.status,
            selector,
            tracked_pids: copy_u32_vec(&active.process_tree_pids),
        },
        Err(error) => {
            let reason = no_fail_open_process_exit_reason(error.as_str());
            proof {
                assert(reason@ == spec_no_fail_open_prefix() + error@ + spec_no_fail_open_suffix());
            }
            ScanRequest::Invalid {
                schedule_id: active.id.clone(),
                status: active.status,
                reason,
            }
        },
    }
}

/// The history either was not touched or respects the cap: the weakest
/// thing a tick helper says of the log beside the per-event clauses below.
pub open spec fn spec_history_capped_or_unchanged(
    before: Seq<crate::types::ExecutionEvent>,
    after: Seq<crate::types::ExecutionEvent>,
) -> bool {
    after == before || after.len() <= HISTORY_LIMIT
}

/// The parts of the store a tick helper leaves alone while it logs events.
pub open spec fn spec_store_frame(before: SchedulerStore, after: SchedulerStore) -> bool {
    &&& after.settings == before.settings
    &&& after.active == before.active
    &&& after.id_seq == before.id_seq
    &&& after.last_schedule_request == before.last_schedule_request
    &&& spec_history_capped_or_unchanged(before.history@, after.history@)
}

/// A notification with exactly this text is queued.
pub open spec fn spec_has_notification(notifications: Seq<String>, body: Seq<char>) -> bool {
    exists|k: int| 0 <= k < notifications.len() && (#[trigger] notifications[k])@ == body
}

proof fn lemma_has_notification_push(notifications: Seq<String>, pushed: String, body: Seq<char>)
    requires
        spec_has_notification(notifications, body),
    ensures
        spec_has_notification(notifications.push(pushed), body),
{
    let k = choose|k: int| 0 <= k < notifications.len() && (#[trigger] notifications[k])@ == body;
    assert(notifications.push(pushed)[k]@ == body);
}

/// The reasons the tick's events are logged with, exactly.
pub open spec fn spec_realigned_reason() -> Seq<char> {
    "specific-time schedule was realigned after timezone change"@
}

pub open spec fn spec_alerted_reason(v: u64) -> Seq<char> {
    "pre-alert fired at "@ + spec_decimal(v as nat) + "s"@
}

pub open spec fn spec_time_final_warning_reason() -> Seq<char> {
    "entered shutdown waiting mode (final warning stage)"@
}

pub open spec fn spec_process_final_warning_reason() -> Seq<char> {
    "target process exited; entered shutdown waiting mode"@
}

pub open spec fn spec_degraded_reason() -> Seq<char> {
    "advanced process matching unavailable; fell back to name matching"@
}

pub open spec fn spec_reverted_reason(source: ProcessMatchSource) -> Seq<char> {
    "target process detected again ("@ + spec_source_label(source) + ")"@
}

/// The log can be promised to still hold this tick's per-alert events only
/// while fewer than the cap's worth of entries follow them; one tick logs at
/// most one event per listed threshold plus one transition.
pub open spec fn spec_alerts_fit_log(a: ActiveSchedule) -> bool {
    a.pre_alerts@.len() + 1 < HISTORY_LIMIT as int
}

/// The realignment condition: an armed wall-clock schedule whose recorded
/// offset differs from the current one, with a recomputed trigger at hand.
pub open spec fn spec_realign_condition(a: ActiveSchedule, tz: TzObservation) -> bool {
    &&& a.mode is SpecificTime
    &&& a.target_local_time is Some
    &&& match a.target_tz_offset_minutes {
        Some(saved) => saved != tz.current_offset_minutes,
        None => false,
    }
    &&& tz.recomputed_target_ms is Some
}

/// The trigger the tick works with: realigned when the condition holds.
pub open spec fn spec_tick_trigger(a: ActiveSchedule, tz: TzObservation) -> Option<i64> {
    if spec_realign_condition(a, tz) {
        tz.recomputed_target_ms
    } else {
        a.trigger_at_ms
    }
}

pub open spec fn spec_tick_tz_offset(a: ActiveSchedule, tz: TzObservation) -> Option<i32> {
    if spec_realign_condition(a, tz) {
        Some(tz.current_offset_minutes)
    } else {
        a.target_tz_offset_minutes
    }
}

/// A pre-alert threshold that fires this tick: listed, not yet fired, and
/// the remaining time has come down to it (but not to zero).
pub open spec fn spec_newly_fired(a: ActiveSchedule, remaining: nat, v: u64) -> bool {
    &&& a.pre_alerts@.contains(v)
    &&& remaining > 0
    &&& remaining <= v
    &&& !a.fired_alerts@.contains(v)
}

/// The tick reaches zero remaining time and enters the final warning.
pub open spec fn spec_time_transition(a: ActiveSchedule, tz: TzObservation, now: i64) -> bool {
    match spec_tick_trigger(a, tz) {
        Some(t) => spec_remaining_sec(t, now) == 0,
        None => false,
    }
}

/// How one tick changes an armed time-based schedule: the trigger and
/// offset realigned when the timezone moved, each due pre-alert recorded
/// exactly once, and the transition into the final warning exactly when the
/// remaining time reaches zero. The advisory shutdown moment is not this
/// relation's business.
pub open spec fn spec_tick_armed_time_rel(
    a: ActiveSchedule,
    now: i64,
    tz: TzObservation,
    b: ActiveSchedule,
) -> bool {
    &&& b.trigger_at_ms == spec_tick_trigger(a, tz)
    &&& b.target_tz_offset_minutes == spec_tick_tz_offset(a, tz)
    &&& match spec_tick_trigger(a, tz) {
        Some(t) => {
            let rem = spec_remaining_sec(t, now);
            &&& (forall|v: u64| #[trigger]
                b.fired_alerts@.contains(v) <==> a.fired_alerts@.contains(v) || spec_newly_fired(
                    a,
                    rem,
                    v,
                ))
            &&& a.fired_alerts@.is_prefix_of(b.fired_alerts@)
            &&& ((a.pre_alerts@.no_duplicates() && a.fired_alerts@.no_duplicates())
                ==> b.fired_alerts@.no_duplicates())
        },
        None => b.fired_alerts@ == a.fired_alerts@,
    }
    &&& if spec_time_transition(a, tz, now) {
        &&& b.status is FinalWarning
        &&& b.final_warning_started_at_ms == Some(now)
        &&& b.shutdown_initiated_at_ms is None
    } else {
        &&& b.status == a.status
        &&& b.final_warning_started_at_ms == a.final_warning_started_at_ms
        &&& b.shutdown_initiated_at_ms == a.shutdown_initiated_at_ms
    }
    &&& b.id@ == a.id@
    &&& b.mode == a.mode
    &&& b.summary@ == a.summary@
    &&& b.armed_at_ms == a.armed_at_ms
    &&& crate::types::opt_str_view(b.target_local_time) == crate::types::opt_str_view(
        a.target_local_time,
    )
    &&& b.pre_alerts@ == a.pre_alerts@
    &&& b.process_selector == a.process_selector
    &&& b.process_tree_pids@ == a.process_tree_pids@
    &&& b.process_stable_sec == a.process_stable_sec
    &&& b.process_missing_since_ms == a.process_missing_since_ms
    &&& b.snooze_until_ms == a.snooze_until_ms
    &&& b.process_match_degraded_logged == a.process_match_degraded_logged
    &&& b.final_warning_duration_sec == a.final_warning_duration_sec
    &&& b.shutdown_at_ms == a.shutdown_at_ms
}

/// Tick an armed time-based schedule: realign after a timezone change, fire
/// the due pre-alerts (each at most once), and enter the final warning when
/// the remaining time reaches zero. Events are logged to the store;
/// notification texts are appended for the caller to send.
pub fn tick_armed_time(
    store: &mut SchedulerStore,
    active: &mut ActiveSchedule,
    now: i64,
    tz: &TzObservation,
    notifications: &mut Vec<String>,
) -> (changed: bool)
    requires
        old(active).status is Armed,
        old(active).mode is Countdown || old(active).mode is SpecificTime,
    ensures
        spec_tick_armed_time_rel(*old(active), now, *tz, *final (active)),
        spec_store_frame(*old(store), *final (store)),
        !changed ==> *final (active) == *old(active),
        old(notifications)@.is_prefix_of(final (notifications)@),
        forall|v: u64|
            (match spec_tick_trigger(*old(active), *tz) {
                Some(t) => spec_newly_fired(*old(active), spec_remaining_sec(t, now), v),
                None => false,
            }) ==> spec_has_notification(final (notifications)@, #[trigger] spec_pre_alert_body(v)),
        spec_time_transition(*old(active), *tz, now) ==> (final (notifications)@.len() > 0 && final (
        notifications)@.last()@ == spec_final_warning_body(
            old(active).final_warning_duration_sec,
        )),
        !changed ==> final (notifications)@ == old(notifications)@,
        spec_time_transition(*old(active), *tz, now) ==> (final (store).history@.len() > 0
            && spec_event(
            Some(old(active).id@),
            "final_warning"@,
            now,
            "ok"@,
            Some(spec_time_final_warning_reason()),
            final (store).history@.last(),
        )),
        spec_alerts_fit_log(*old(active)) ==> (forall|v: u64|
            (match spec_tick_trigger(*old(active), *tz) {
                Some(t) => spec_newly_fired(*old(active), spec_remaining_sec(t, now), v),
                None => false,
            }) ==> spec_has_event(
                final (store).history@,
                Some(old(active).id@),
                "alerted"@,
                now,
                "ok"@,
                Some(#[trigger] spec_alerted_reason(v)),
            )),
        (spec_alerts_fit_log(*old(active)) && spec_realign_condition(*old(active), *tz))
            ==> spec_has_event(
            final (store).history@,
            Some(old(active).id@),
            "timezone_realigned"@,
            now,
            "ok"@,
            Some(spec_realigned_reason()),
        ),
{
    let ghost a = *active;
    let mut changed = false;
    if matches!(active.mode, ScheduleMode::SpecificTime) && active.target_local_time.is_some()
        && active.target_tz_offset_minutes.is_some() {
        let saved = match active.target_tz_offset_minutes {
            Some(s) => s,
            None => 0,
        };
        if saved != tz.current_offset_minutes {
            match tz.recomputed_target_ms {
                Some(recomputed) => {
                    active.trigger_at_ms = Some(recomputed);
                    active.target_tz_offset_minutes = Some(tz.current_offset_minutes);
                    changed = true;
                    push_event(
                        store,
                        Some(active.id.clone()),
                        "timezone_realigned",
                        now,
                        "ok",
                        Some(
                            String::from_str(
                                "specific-time schedule was realigned after timezone change",
                            ),
                        ),
                    );
                    proof {
                        assert(store.history@[store.history@.len() - 1] == store.history@.last());
                        assert(spec_has_event_within(
                            store.history@,
                            1,
                            Some(a.id@),
                            "timezone_realigned"@,
                            now,
                            "ok"@,
                            Some(spec_realigned_reason()),
                        ));
                    }
                },
                None => {},
            }
        }
    }
    proof {
        assert(active.trigger_at_ms == spec_tick_trigger(a, *tz));
        assert(active.target_tz_offset_minutes == spec_tick_tz_offset(a, *tz));
    }

    let trigger_at_ms = match active.trigger_at_ms {
        Some(t) => t,
        None => {
            return changed;
        },
    };
    let remaining_sec: u64 = if trigger_at_ms > now {
        let diff: u128 = ((trigger_at_ms as i128) - (now as i128)) as u128;
        proof {
            assert(diff / 1000 < 0x10000000000000000u128);
        }
        (diff / 1000) as u64
    } else {
        0
    };
    proof {
        assert(remaining_sec == spec_remaining_sec(trigger_at_ms, now));
    }

    let thresholds = crate::store::copy_u64_vec(&active.pre_alerts);
    let ghost fired_at_start = active.fired_alerts@;
    let mut idx: usize = 0;
    while idx < thresholds.len()
        invariant
            0 <= idx <= thresholds.len(),
            thresholds@ == a.pre_alerts@,
            active.pre_alerts@ == a.pre_alerts@,
            active.id@ == a.id@,
            active.mode == a.mode,
            active.status == a.status,
            active.summary@ == a.summary@,
            active.armed_at_ms == a.armed_at_ms,
            active.trigger_at_ms == spec_tick_trigger(a, *tz),
            active.target_tz_offset_minutes == spec_tick_tz_offset(a, *tz),
            crate::types::opt_str_view(active.target_local_time) == crate::types::opt_str_view(
                a.target_local_time,
            ),
            active.process_selector == a.process_selector,
            active.process_tree_pids@ == a.process_tree_pids@,
            active.process_stable_sec == a.process_stable_sec,
            active.process_missing_since_ms == a.process_missing_since_ms,
            active.snooze_until_ms == a.snooze_until_ms,
            active.process_match_degraded_logged == a.process_match_degraded_logged,
            active.final_warning_started_at_ms == a.final_warning_started_at_ms,
            active.final_warning_duration_sec == a.final_warning_duration_sec,
            active.shutdown_at_ms == a.shutdown_at_ms,
            active.shutdown_initiated_at_ms == a.shutdown_initiated_at_ms,
            remaining_sec == (match spec_tick_trigger(a, *tz) {
                Some(t) => spec_remaining_sec(t, now),
                None => 0,
            }),
            spec_tick_trigger(a, *tz) is Some,
            forall|v: u64| #[trigger]
                active.fired_alerts@.contains(v) <==> a.fired_alerts@.contains(v) || (exists|w: int|
                    0 <= w < idx && (#[trigger] thresholds@[w]) == v && spec_newly_fired(
                        a,
                        remaining_sec as nat,
                        v,
                    )),
            a.fired_alerts@.is_prefix_of(active.fired_alerts@),
            ((a.pre_alerts@.no_duplicates() && a.fired_alerts@.no_duplicates())
                ==> active.fired_alerts@.no_duplicates()),
            spec_store_frame(*old(store), *store),
            old(notifications)@.is_prefix_of(notifications@),
            forall|v: u64|
                (exists|w: int|
                    0 <= w < idx && (#[trigger] thresholds@[w]) == v && spec_newly_fired(
                        a,
                        remaining_sec as nat,
                        v,
                    )) ==> spec_has_notification(notifications@, #[trigger] spec_pre_alert_body(v)),
            !changed ==> *active == a,
            !changed ==> notifications@ == old(notifications)@,
            spec_alerts_fit_log(a) ==> (forall|v: u64|
                (exists|w: int|
                    0 <= w < idx && (#[trigger] thresholds@[w]) == v && spec_newly_fired(
                        a,
                        remaining_sec as nat,
                        v,
                    )) ==> spec_has_event_within(
                    store.history@,
                    idx as int,
                    Some(a.id@),
                    "alerted"@,
                    now,
                    "ok"@,
                    Some(#[trigger] spec_alerted_reason(v)),
                )),
            (spec_alerts_fit_log(a) && spec_realign_condition(a, *tz)) ==> spec_has_event_within(
                store.history@,
                1 + idx as int,
                Some(a.id@),
                "timezone_realigned"@,
                now,
                "ok"@,
                Some(spec_realigned_reason()),
            ),
        decreases thresholds.len() - idx,
    {
        let threshold_sec = thresholds[idx];
        let already = crate::matcher::vec_contains_u64(&active.fired_alerts, threshold_sec);
        let ghost fired_before = active.fired_alerts@;
        let ghost notifs_before = notifications@;
        let ghost hist_before = store.history@;
        if remaining_sec > 0 && remaining_sec <= threshold_sec && !already {
            active.fired_alerts.push(threshold_sec);
            changed = true;
            let mut reason = String::from_str("pre-alert fired at ");
            let digits = u64_to_string(threshold_sec);
            reason.append(digits.as_str());
            reason.append("s");
            proof {
                assert(reason@ =~= spec_alerted_reason(threshold_sec));
            }
            push_event(store, Some(active.id.clone()), "alerted", now, "ok", Some(reason));
            notifications.push(pre_alert_notification_body(threshold_sec));
            proof {
                assert(store.history@[store.history@.len() - 1] == store.history@.last());
                assert(spec_has_event_within(
                    store.history@,
                    1,
                    Some(a.id@),
                    "alerted"@,
                    now,
                    "ok"@,
                    Some(spec_alerted_reason(threshold_sec)),
                ));
                assert(active.fired_alerts@ == fired_before.push(threshold_sec));
                assert(thresholds@[idx as int] == threshold_sec);
                assert(a.pre_alerts@.contains(threshold_sec)) by {
                    assert(a.pre_alerts@[idx as int] == threshold_sec);
                }
                assert(!a.fired_alerts@.contains(threshold_sec)) by {
                    if a.fired_alerts@.contains(threshold_sec) {
                        let w = choose|w: int|
                            0 <= w < a.fired_alerts@.len() && a.fired_alerts@[w] == threshold_sec;
                        assert(fired_before[w] == threshold_sec);
                        assert(fired_before.contains(threshold_sec));
                    }
                }
                assert(spec_newly_fired(a, remaining_sec as nat, threshold_sec));
                assert(notifications@ == notifs_before.push(
                    notifications@[notifications@.len() - 1],
                ));
                assert(notifications@.last()@ == spec_pre_alert_body(threshold_sec));
            }
        }
        idx += 1;
        proof {
            assert forall|v: u64| #[trigger]
                active.fired_alerts@.contains(v) <==> a.fired_alerts@.contains(v) || (exists|w: int|
                    0 <= w < idx && (#[trigger] thresholds@[w]) == v && spec_newly_fired(
                        a,
                        remaining_sec as nat,
                        v,
                    )) by {
                if active.fired_alerts@.contains(v) {
                    if !fired_before.contains(v) {
                        assert(v == threshold_sec);
                        assert(thresholds@[idx - 1] == v);
                    } else {
                        if !a.fired_alerts@.contains(v) {
                            let w = choose|w: int|
                                0 <= w < idx - 1 && (#[trigger] thresholds@[w]) == v
                                    && spec_newly_fired(a, remaining_sec as nat, v);
                        }
                    }
                } else {
                }
                if a.fired_alerts@.contains(v) {
                    let w = choose|w: int|
                        0 <= w < a.fired_alerts@.len() && a.fired_alerts@[w] == v;
                    assert(active.fired_alerts@[w] == v);
                    assert(active.fired_alerts@.contains(v));
                }
                if exists|w: int|
                    0 <= w < idx && (#[trigger] thresholds@[w]) == v && spec_newly_fired(
                        a,
                        remaining_sec as nat,
                        v,
                    ) {
                    let w = choose|w: int|
                        0 <= w < idx && (#[trigger] thresholds@[w]) == v && spec_newly_fired(
                            a,
                            remaining_sec as nat,
                            v,
                        );
                    if w < idx - 1 {
                        assert(fired_before.contains(v));
                        if !(active.fired_alerts@ == fired_before) {
                            let u = choose|u: int|
                                0 <= u < fired_before.len() && fired_before[u] == v;
                            assert(active.fired_alerts@[u] == v);
                        }
                        assert(active.fired_alerts@.contains(v));
                    } else {
                        if fired_before.contains(v) {
                            let u = choose|u: int|
                                0 <= u < fired_before.len() && fired_before[u] == v;
                            if !(active.fired_alerts@ == fired_before) {
                                assert(active.fired_alerts@[u] == v);
                            }
                            assert(active.fired_alerts@.contains(v));
                        } else {
                            assert(v == threshold_sec);
                            assert(!already);
                            assert(active.fired_alerts@ == fired_before.push(threshold_sec));
                            assert(active.fired_alerts@[active.fired_alerts@.len() - 1] == v);
                            assert(active.fired_alerts@.contains(v));
                        }
                    }
                }
            }
            if a.pre_alerts@.no_duplicates() && a.fired_alerts@.no_duplicates()
                && !(active.fired_alerts@ == fired_before) {
                assert(active.fired_alerts@ == fired_before.push(threshold_sec));
                assert(!fired_before.contains(threshold_sec));
                assert forall|p: int, q: int|
                    0 <= p < q < active.fired_alerts@.len() implies active.fired_alerts@[p]
                    != active.fired_alerts@[q] by {
                    if q == active.fired_alerts@.len() - 1 {
                        assert(active.fired_alerts@[p] == fired_before[p]);
                        if active.fired_alerts@[p] == threshold_sec {
                            assert(fired_before.contains(threshold_sec));
                        }
                    }
                }
            }
            assert forall|v: u64|
                (exists|w: int|
                    0 <= w < idx && (#[trigger] thresholds@[w]) == v && spec_newly_fired(
                        a,
                        remaining_sec as nat,
                        v,
                    )) implies spec_has_notification(
                notifications@,
                #[trigger] spec_pre_alert_body(v),
            ) by {
                let w = choose|w: int|
                    0 <= w < idx && (#[trigger] thresholds@[w]) == v && spec_newly_fired(
                        a,
                        remaining_sec as nat,
                        v,
                    );
                if w < idx - 1 {
                    assert(spec_has_notification(notifs_before, spec_pre_alert_body(v)));
                    if !(notifications@ == notifs_before) {
                        assert(notifications@ =~= notifs_before.push(notifications@.last()));
                        lemma_has_notification_push(
                            notifs_before,
                            notifications@.last(),
                            spec_pre_alert_body(v),
                        );
                    }
                } else {
                    assert(v == threshold_sec);
                    if !(notifications@ == notifs_before) {
                        assert(notifications@[notifications@.len() - 1]@ == spec_pre_alert_body(
                            v,
                        ));
                        assert(spec_has_notification(notifications@, spec_pre_alert_body(v)));
                    } else {
                        assert(already);
                        assert(fired_before.contains(v));
                        assert(!a.fired_alerts@.contains(v));
                        assert(spec_has_notification(notifs_before, spec_pre_alert_body(v)));
                    }
                }
            }
            if spec_alerts_fit_log(a) {
                assert forall|v: u64|
                    (exists|w: int|
                        0 <= w < idx && (#[trigger] thresholds@[w]) == v && spec_newly_fired(
                            a,
                            remaining_sec as nat,
                            v,
                        )) implies spec_has_event_within(
                    store.history@,
                    idx as int,
                    Some(a.id@),
                    "alerted"@,
                    now,
                    "ok"@,
                    Some(#[trigger] spec_alerted_reason(v)),
                ) by {
                    let w = choose|w: int|
                        0 <= w < idx && (#[trigger] thresholds@[w]) == v && spec_newly_fired(
                            a,
                            remaining_sec as nat,
                            v,
                        );
                    if w < idx - 1 {
                        assert(spec_has_event_within(
                            hist_before,
                            idx - 1,
                            Some(a.id@),
                            "alerted"@,
                            now,
                            "ok"@,
                            Some(spec_alerted_reason(v)),
                        ));
                        if remaining_sec > 0 && remaining_sec <= threshold_sec && !already {
                            lemma_event_survives_push(
                                hist_before,
                                store.history@,
                                idx - 1,
                                Some(a.id@),
                                "alerted"@,
                                now,
                                "ok"@,
                                Some(spec_alerted_reason(v)),
                            );
                        } else {
                            assert(store.history@ == hist_before);
                            let k = choose|k: int|
                                0 <= k < hist_before.len() && k >= hist_before.len() - (idx - 1)
                                    && spec_event(
                                    Some(a.id@),
                                    "alerted"@,
                                    now,
                                    "ok"@,
                                    Some(spec_alerted_reason(v)),
                                    #[trigger] hist_before[k],
                                );
                            assert(k >= store.history@.len() - idx);
                        }
                    } else {
                        assert(v == threshold_sec);
                        if remaining_sec > 0 && remaining_sec <= threshold_sec && !already {
                            let k = choose|k: int|
                                0 <= k < store.history@.len() && k >= store.history@.len() - 1
                                    && spec_event(
                                    Some(a.id@),
                                    "alerted"@,
                                    now,
                                    "ok"@,
                                    Some(spec_alerted_reason(v)),
                                    #[trigger] store.history@[k],
                                );
                            assert(k >= store.history@.len() - idx);
                        } else {
                            assert(already);
                            assert(fired_before.contains(v));
                            assert(!a.fired_alerts@.contains(v));
                            assert(spec_has_event_within(
                                hist_before,
                                idx - 1,
                                Some(a.id@),
                                "alerted"@,
                                now,
                                "ok"@,
                                Some(spec_alerted_reason(v)),
                            ));
                            assert(store.history@ == hist_before);
                            let k = choose|k: int|
                                0 <= k < hist_before.len() && k >= hist_before.len() - (idx - 1)
                                    && spec_event(
                                    Some(a.id@),
                                    "alerted"@,
                                    now,
                                    "ok"@,
                                    Some(spec_alerted_reason(v)),
                                    #[trigger] hist_before[k],
                                );
                            assert(k >= store.history@.len() - idx);
                        }
                    }
                }
                if spec_realign_condition(a, *tz) {
                    assert(spec_has_event_within(
                        hist_before,
                        1 + (idx - 1),
                        Some(a.id@),
                        "timezone_realigned"@,
                        now,
                        "ok"@,
                        Some(spec_realigned_reason()),
                    ));
                    if remaining_sec > 0 && remaining_sec <= threshold_sec && !already {
                        lemma_event_survives_push(
                            hist_before,
                            store.history@,
                            1 + (idx - 1),
                            Some(a.id@),
                            "timezone_realigned"@,
                            now,
                            "ok"@,
                            Some(spec_realigned_reason()),
                        );
                    } else {
                        assert(store.history@ == hist_before);
                        let k = choose|k: int|
                            0 <= k < hist_before.len() && k >= hist_before.len() - (1 + (idx - 1))
                                && spec_event(
                                Some(a.id@),
                                "timezone_realigned"@,
                                now,
                                "ok"@,
                                Some(spec_realigned_reason()),
                                #[trigger] hist_before[k],
                            );
                        assert(k >= store.history@.len() - (1 + idx));
                    }
                }
            }
        }
    }
    let ghost hist_after_alerts = store.history@;
    proof {
        assert forall|v: u64| #[trigger]
            active.fired_alerts@.contains(v) <==> a.fired_alerts@.contains(v) || spec_newly_fired(
                a,
                spec_remaining_sec(trigger_at_ms, now),
                v,
            ) by {
            if spec_newly_fired(a, spec_remaining_sec(trigger_at_ms, now), v)
                && !a.fired_alerts@.contains(v) {
                let w = choose|w: int| 0 <= w < a.pre_alerts@.len() && a.pre_alerts@[w] == v;
                assert(thresholds@[w] == v);
            }
        }
    }

    if remaining_sec == 0 {
        active.status = ScheduleStatus::FinalWarning;
        active.final_warning_started_at_ms = Some(now);
        active.shutdown_initiated_at_ms = None;
        changed = true;
        push_event(
            store,
            Some(active.id.clone()),
            "final_warning",
            now,
            "ok",
            Some(String::from_str("entered shutdown waiting mode (final warning stage)")),
        );
        notifications.push(final_warning_notification_body(active.final_warning_duration_sec));
        proof {
            assert(notifications@.last()@ == spec_final_warning_body(
                a.final_warning_duration_sec,
            ));
            assert(old(notifications)@.is_prefix_of(notifications@)) by {
                assert(notifications@ =~= notifications@.drop_last().push(notifications@.last()));
            }
            if spec_alerts_fit_log(a) {
                assert forall|v: u64|
                    (match spec_tick_trigger(a, *tz) {
                        Some(t) => spec_newly_fired(a, spec_remaining_sec(t, now), v),
                        None => false,
                    }) implies spec_has_event(
                    store.history@,
                    Some(a.id@),
                    "alerted"@,
                    now,
                    "ok"@,
                    Some(#[trigger] spec_alerted_reason(v)),
                ) by {
                    let w = choose|w: int| 0 <= w < a.pre_alerts@.len() && a.pre_alerts@[w] == v;
                    assert(thresholds@[w] == v);
                    assert(spec_has_event_within(
                        hist_after_alerts,
                        thresholds@.len() as int,
                        Some(a.id@),
                        "alerted"@,
                        now,
                        "ok"@,
                        Some(spec_alerted_reason(v)),
                    ));
                    lemma_event_survives_push(
                        hist_after_alerts,
                        store.history@,
                        thresholds@.len() as int,
                        Some(a.id@),
                        "alerted"@,
                        now,
                        "ok"@,
                        Some(spec_alerted_reason(v)),
                    );
                    lemma_within_implies_has(
                        store.history@,
                        thresholds@.len() as int + 1,
                        Some(a.id@),
                        "alerted"@,
                        now,
                        "ok"@,
                        Some(spec_alerted_reason(v)),
                    );
                }
                if spec_realign_condition(a, *tz) {
                    lemma_event_survives_push(
                        hist_after_alerts,
                        store.history@,
                        1 + thresholds@.len() as int,
                        Some(a.id@),
                        "timezone_realigned"@,
                        now,
                        "ok"@,
                        Some(spec_realigned_reason()),
                    );
                    lemma_within_implies_has(
                        store.history@,
                        2 + thresholds@.len() as int,
                        Some(a.id@),
                        "timezone_realigned"@,
                        now,
                        "ok"@,
                        Some(spec_realigned_reason()),
                    );
                }
            }
        }
    } else {
        proof {
            if spec_alerts_fit_log(a) {
                assert forall|v: u64|
                    (match spec_tick_trigger(a, *tz) {
                        Some(t) => spec_newly_fired(a, spec_remaining_sec(t, now), v),
                        None => false,
                    }) implies spec_has_event(
                    store.history@,
                    Some(a.id@),
                    "alerted"@,
                    now,
                    "ok"@,
                    Some(#[trigger] spec_alerted_reason(v)),
                ) by {
                    let w = choose|w: int| 0 <= w < a.pre_alerts@.len() && a.pre_alerts@[w] == v;
                    assert(thresholds@[w] == v);
                    lemma_within_implies_has(
                        store.history@,
                        thresholds@.len() as int,
                        Some(a.id@),
                        "alerted"@,
                        now,
                        "ok"@,
                        Some(spec_alerted_reason(v)),
                    );
                }
                if spec_realign_condition(a, *tz) {
                    lemma_within_implies_has(
                        store.history@,
                        1 + thresholds@.len() as int,
                        Some(a.id@),
                        "timezone_realigned"@,
                        now,
                        "ok"@,
                        Some(spec_realigned_reason()),
                    );
                }
            }
        }
    }
    changed
}

/// The snooze window after this tick: cleared once `now` has reached it.
pub open spec fn spec_snooze_after(a: ActiveSchedule, now: i64) -> Option<i64> {
    match a.snooze_until_ms {
        Some(s) => if now >= s {
            None
        } else {
            Some(s)
        },
        None => None,
    }
}

/// The scan verdict was taken against exactly this schedule and status.
pub open spec fn spec_scan_ready_applies(a: ActiveSchedule, scan: ScanOutcome) -> bool {
    scan matches ScanOutcome::Ready { schedule_id, status, result } && schedule_id@ == a.id@
        && status == a.status
}

/// The scan found the selector invalid, against exactly this schedule and
/// status.
pub open spec fn spec_scan_invalid_applies(a: ActiveSchedule, scan: ScanOutcome) -> bool {
    scan matches ScanOutcome::Invalid { schedule_id, status, reason } && schedule_id@ == a.id@
        && status == a.status
}

/// When the target's absence began, as of this tick.
pub open spec fn spec_missing_start(a: ActiveSchedule, now: i64) -> i64 {
    match a.process_missing_since_ms {
        Some(m) => m,
        None => now,
    }
}

/// An absent target fires the warning: absent continuously for at least the
/// stability window, and not inside a snooze window.
pub open spec fn spec_process_fire(a: ActiveSchedule, now: i64) -> bool {
    &&& now - spec_missing_start(a, now) >= a.process_stable_sec * 1000
    &&& !(match spec_snooze_after(a, now) {
        Some(su) => now < su,
        None => false,
    })
}

/// The fields no tick helper touches.
pub open spec fn spec_identity_fields_unchanged(a: ActiveSchedule, b: ActiveSchedule) -> bool {
    &&& b.id@ == a.id@
    &&& b.mode == a.mode
    &&& b.summary@ == a.summary@
    &&& b.armed_at_ms == a.armed_at_ms
    &&& b.process_selector == a.process_selector
    &&& b.process_stable_sec == a.process_stable_sec
    &&& b.final_warning_duration_sec == a.final_warning_duration_sec
}

/// The time-target fields, untouched by the process-exit helpers.
pub open spec fn spec_time_fields_unchanged(a: ActiveSchedule, b: ActiveSchedule) -> bool {
    &&& b.trigger_at_ms == a.trigger_at_ms
    &&& crate::types::opt_str_view(b.target_local_time) == crate::types::opt_str_view(
        a.target_local_time,
    )
    &&& b.target_tz_offset_minutes == a.target_tz_offset_minutes
    &&& b.pre_alerts@ == a.pre_alerts@
    &&& b.fired_alerts@ == a.fired_alerts@
}

/// The warning state: status, warning start, and commit stamp.
pub open spec fn spec_warning_state_unchanged(a: ActiveSchedule, b: ActiveSchedule) -> bool {
    &&& b.status == a.status
    &&& b.final_warning_started_at_ms == a.final_warning_started_at_ms
    &&& b.shutdown_initiated_at_ms == a.shutdown_initiated_at_ms
}

/// The process observations: tracked tree, degraded flag, absence stamp.
pub open spec fn spec_process_obs_unchanged(a: ActiveSchedule, b: ActiveSchedule) -> bool {
    &&& b.process_tree_pids@ == a.process_tree_pids@
    &&& b.process_match_degraded_logged == a.process_match_degraded_logged
    &&& b.process_missing_since_ms == a.process_missing_since_ms
}

/// How one tick changes an armed process-exit schedule: an expired snooze
/// is cleared; a scan verdict for this very schedule and status updates the
/// tracked PIDs and the degraded flag, clears or stamps the absence time,
/// and enters the final warning exactly when the target has been absent for
/// the stability window outside any snooze; an invalid selector clears
/// every observation (the fail-safe cancel is the caller's step); a stale
/// or absent verdict changes nothing else.
pub open spec fn spec_tick_armed_process_rel(
    a: ActiveSchedule,
    now: i64,
    scan: ScanOutcome,
    b: ActiveSchedule,
) -> bool {
    &&& spec_identity_fields_unchanged(a, b)
    &&& spec_time_fields_unchanged(a, b)
    &&& b.shutdown_at_ms == a.shutdown_at_ms
    &&& b.snooze_until_ms == spec_snooze_after(a, now)
    &&& match scan {
        ScanOutcome::Ready { schedule_id, status, result } => {
            if schedule_id@ == a.id@ && status == a.status {
                &&& b.process_tree_pids@ == result.matched_pids@
                &&& b.process_match_degraded_logged == (a.process_match_degraded_logged
                    || result.degraded_to_name)
                &&& if result.running {
                    &&& b.process_missing_since_ms is None
                    &&& spec_warning_state_unchanged(
                        ActiveSchedule { process_missing_since_ms: None, ..a },
                        b,
                    )
                } else {
                    if spec_process_fire(a, now) {
                        &&& b.status is FinalWarning
                        &&& b.final_warning_started_at_ms == Some(now)
                        &&& b.process_missing_since_ms is None
                        &&& b.shutdown_initiated_at_ms is None
                    } else {
                        &&& b.process_missing_since_ms == Some(spec_missing_start(a, now))
                        &&& spec_warning_state_unchanged(
                            ActiveSchedule { process_missing_since_ms: None, ..a },
                            b,
                        )
                    }
                }
            } else {
                spec_process_obs_unchanged(a, b) && spec_warning_state_unchanged(a, b)
            }
        },
        ScanOutcome::Invalid { schedule_id, status, reason } => {
            if schedule_id@ == a.id@ && status == a.status {
                &&& b.process_missing_since_ms is None
                &&& b.process_tree_pids@.len() == 0
                &&& b.final_warning_started_at_ms is None
                &&& b.shutdown_initiated_at_ms is None
                &&& b.status == a.status
                &&& b.process_match_degraded_logged == a.process_match_degraded_logged
            } else {
                spec_process_obs_unchanged(a, b) && spec_warning_state_unchanged(a, b)
            }
        },
        ScanOutcome::NotRequested => spec_process_obs_unchanged(a, b)
            && spec_warning_state_unchanged(a, b),
    }
}

/// Tick an armed process-exit schedule. Returns whether anything changed,
/// and the fail-safe reason when the scan reported the selector invalid.
pub fn tick_armed_process(
    store: &mut SchedulerStore,
    active: &mut ActiveSchedule,
    now: i64,
    scan: &ScanOutcome,
    notifications: &mut Vec<String>,
) -> (r: (bool, Option<String>))
    requires
        old(active).status is Armed,
        old(active).mode is ProcessExit,
    ensures
        spec_tick_armed_process_rel(*old(active), now, *scan, *final (active)),
        spec_store_frame(*old(store), *final (store)),
        !r.0 ==> final (notifications)@ == old(notifications)@,
        old(notifications)@.is_prefix_of(final (notifications)@),
        r.1 is Some <==> spec_scan_invalid_applies(*old(active), *scan),
        r.1 matches Some(rs) ==> (match *scan {
            ScanOutcome::Invalid { schedule_id, status, reason } => rs@ == reason@,
            _ => false,
        }),
        (spec_scan_ready_applies(*old(active), *scan) && (match *scan {
            ScanOutcome::Ready { schedule_id, status, result } => !result.running
                && spec_process_fire(*old(active), now),
            _ => false,
        })) ==> (final (notifications)@.len() > 0 && final (notifications)@.last()@
            == spec_process_exit_final_warning_body(old(active).final_warning_duration_sec)),
        (spec_scan_ready_applies(*old(active), *scan) && (match *scan {
            ScanOutcome::Ready { schedule_id, status, result } => !result.running
                && spec_process_fire(*old(active), now),
            _ => false,
        })) ==> (final (store).history@.len() > 0 && spec_event(
            Some(old(active).id@),
            "final_warning"@,
            now,
            "ok"@,
            Some(spec_process_final_warning_reason()),
            final (store).history@.last(),
        )),
        (spec_scan_ready_applies(*old(active), *scan) && (match *scan {
            ScanOutcome::Ready { schedule_id, status, result } => result.degraded_to_name && !old(
                active,
            ).process_match_degraded_logged,
            _ => false,
        })) ==> spec_has_event(
            final (store).history@,
            Some(old(active).id@),
            "process_match_degraded"@,
            now,
            "ok"@,
            Some(spec_degraded_reason()),
        ),
{
    let ghost a = *active;
    let mut changed = false;
    let mut fail_safe_reason: Option<String> = None;
    let mut warned = false;

    match active.snooze_until_ms {
        Some(snooze_until_ms) => {
            if now >= snooze_until_ms {
                active.snooze_until_ms = None;
                changed = true;
            }
        },
        None => {},
    }
    proof {
        assert(active.snooze_until_ms == spec_snooze_after(a, now));
    }

    match scan {
        ScanOutcome::Ready { schedule_id, status, result } => {
            let applies = str_eq(schedule_id.as_str(), active.id.as_str()) && *status
                == active.status;
            if applies {
                active.process_tree_pids = copy_u32_vec(&result.matched_pids);
                let logged_degraded = result.degraded_to_name
                    && !active.process_match_degraded_logged;
                if logged_degraded {
                    active.process_match_degraded_logged = true;
                    changed = true;
                    push_event(
                        store,
                        Some(active.id.clone()),
                        "process_match_degraded",
                        now,
                        "ok",
                        Some(
                            String::from_str(
                                "advanced process matching unavailable; fell back to name matching",
                            ),
                        ),
                    );
                    proof {
                        assert(store.history@[store.history@.len() - 1] == store.history@.last());
                        assert(spec_has_event_within(
                            store.history@,
                            1,
                            Some(a.id@),
                            "process_match_degraded"@,
                            now,
                            "ok"@,
                            Some(spec_degraded_reason()),
                        ));
                    }
                }
                let ghost h_mid = store.history@;
                if result.running {
                    if active.process_missing_since_ms.is_some() {
                        active.process_missing_since_ms = None;
                        changed = true;
                    }
                } else {
                    if active.process_missing_since_ms.is_none() {
                        active.process_missing_since_ms = Some(now);
                        changed = true;
                    }
                    let missing_since: i64 = match active.process_missing_since_ms {
                        Some(m) => m,
                        None => now,
                    };
                    let missing_for: i128 = (now as i128) - (missing_since as i128);
                    if missing_for >= (active.process_stable_sec as i128) * 1000 {
                        let snoozed: bool = match active.snooze_until_ms {
                            Some(snooze_until_ms) => now < snooze_until_ms,
                            None => false,
                        };
                        if !snoozed {
                            active.status = ScheduleStatus::FinalWarning;
                            active.final_warning_started_at_ms = Some(now);
                            active.process_missing_since_ms = None;
                            active.shutdown_initiated_at_ms = None;
                            changed = true;
                            warned = true;
                            push_event(
                                store,
                                Some(active.id.clone()),
                                "final_warning",
                                now,
                                "ok",
                                Some(
                                    String::from_str(
                                        "target process exited; entered shutdown waiting mode",
                                    ),
                                ),
                            );
                            notifications.push(
                                process_exit_final_warning_notification_body(
                                    active.final_warning_duration_sec,
                                ),
                            );
                            proof {
                                assert(old(notifications)@.is_prefix_of(notifications@)) by {
                                    assert(notifications@ =~= notifications@.drop_last().push(
                                        notifications@.last(),
                                    ));
                                }
                            }
                        }
                    }
                }
                proof {
                    if logged_degraded {
                        if warned {
                            lemma_event_survives_push(
                                h_mid,
                                store.history@,
                                1,
                                Some(a.id@),
                                "process_match_degraded"@,
                                now,
                                "ok"@,
                                Some(spec_degraded_reason()),
                            );
                            lemma_within_implies_has(
                                store.history@,
                                2,
                                Some(a.id@),
                                "process_match_degraded"@,
                                now,
                                "ok"@,
                                Some(spec_degraded_reason()),
                            );
                        } else {
                            lemma_within_implies_has(
                                store.history@,
                                1,
                                Some(a.id@),
                                "process_match_degraded"@,
                                now,
                                "ok"@,
                                Some(spec_degraded_reason()),
                            );
                        }
                    }
                }
            }
        },
        ScanOutcome::Invalid { schedule_id, status, reason } => {
            let applies = str_eq(schedule_id.as_str(), active.id.as_str()) && *status
                == active.status;
            if applies {
                fail_safe_reason = Some(reason.clone());
                reset_process_exit_on_selector_failure(active);
                changed = true;
            }
        },
        ScanOutcome::NotRequested => {},
    }
    (changed, fail_safe_reason)
}

/// Whether, for a process-exit schedule in its final warning, this tick's
/// scan keeps the warning from elapsing: the target is back, the selector
/// failed, or the verdict is stale.
pub open spec fn spec_scan_blocks_warning(a: ActiveSchedule, scan: ScanOutcome) -> bool {
    a.mode is ProcessExit && match scan {
        ScanOutcome::NotRequested => false,
        ScanOutcome::Ready { schedule_id, status, result } => {
            if schedule_id@ == a.id@ && status == a.status {
                result.running
            } else {
                true
            }
        },
        ScanOutcome::Invalid { schedule_id, status, reason } => true,
    }
}

/// The final warning elapses this tick: nothing blocks it, its start is
/// stamped, and the full window has passed. Only this — never the advisory
/// shutdown moment — hands the schedule to execution.
pub open spec fn spec_warning_elapses(a: ActiveSchedule, now: i64, scan: ScanOutcome) -> bool {
    &&& !spec_scan_blocks_warning(a, scan)
    &&& match a.final_warning_started_at_ms {
        Some(s) => now - s >= a.final_warning_duration_sec * 1000,
        None => false,
    }
}

/// How one tick changes a schedule in its final warning: a process-exit
/// target seen running again reverts to `Armed` with the warning cleared;
/// an invalid selector clears every observation for the fail-safe cancel; a
/// missing warning start is stamped; otherwise the schedule waits, and the
/// elapsed window is reported to the caller.
pub open spec fn spec_tick_final_warning_rel(
    a: ActiveSchedule,
    now: i64,
    scan: ScanOutcome,
    b: ActiveSchedule,
) -> bool {
    &&& spec_identity_fields_unchanged(a, b)
    &&& spec_time_fields_unchanged(a, b)
    &&& b.shutdown_at_ms == a.shutdown_at_ms
    &&& b.snooze_until_ms == a.snooze_until_ms
    &&& if a.mode is ProcessExit {
        match scan {
            ScanOutcome::Ready { schedule_id, status, result } => {
                if schedule_id@ == a.id@ && status == a.status {
                    &&& b.process_tree_pids@ == result.matched_pids@
                    &&& b.process_match_degraded_logged == (a.process_match_degraded_logged
                        || result.degraded_to_name)
                    &&& if result.running {
                        &&& b.status is Armed
                        &&& b.final_warning_started_at_ms is None
                        &&& b.process_missing_since_ms is None
                        &&& b.shutdown_initiated_at_ms is None
                    } else {
                        &&& b.status == a.status
                        &&& b.final_warning_started_at_ms == (match a.final_warning_started_at_ms {
                            Some(s) => Some(s),
                            None => Some(now),
                        })
                        &&& b.process_missing_since_ms == a.process_missing_since_ms
                        &&& b.shutdown_initiated_at_ms == a.shutdown_initiated_at_ms
                    }
                } else {
                    spec_process_obs_unchanged(a, b) && spec_warning_state_unchanged(a, b)
                }
            },
            ScanOutcome::Invalid { schedule_id, status, reason } => {
                if schedule_id@ == a.id@ && status == a.status {
                    &&& b.process_missing_since_ms is None
                    &&& b.process_tree_pids@.len() == 0
                    &&& b.final_warning_started_at_ms is None
                    &&& b.shutdown_initiated_at_ms is None
                    &&& b.status == a.status
                    &&& b.process_match_degraded_logged == a.process_match_degraded_logged
                } else {
                    spec_process_obs_unchanged(a, b) && spec_warning_state_unchanged(a, b)
                }
            },
            ScanOutcome::NotRequested => {
                &&& spec_process_obs_unchanged(a, b)
                &&& b.status == a.status
                &&& b.final_warning_started_at_ms == (match a.final_warning_started_at_ms {
                    Some(s) => Some(s),
                    None => Some(now),
                })
                &&& b.shutdown_initiated_at_ms == a.shutdown_initiated_at_ms
            },
        }
    } else {
        &&& spec_process_obs_unchanged(a, b)
        &&& b.status == a.status
        &&& b.final_warning_started_at_ms == (match a.final_warning_started_at_ms {
            Some(s) => Some(s),
            None => Some(now),
        })
        &&& b.shutdown_initiated_at_ms == a.shutdown_initiated_at_ms
    }
}

pub open spec fn spec_revert_notification_body() -> Seq<char> {
    "감시 대상이 다시 실행되어 종료를 보류했습니다."@
}

/// Tick a schedule in its final warning. Returns whether anything changed,
/// the fail-safe reason when the scan reported the selector invalid, and
/// whether the warning window has elapsed so execution is due.
pub fn tick_final_warning(
    store: &mut SchedulerStore,
    active: &mut ActiveSchedule,
    now: i64,
    scan: &ScanOutcome,
    notifications: &mut Vec<String>,
) -> (r: (bool, Option<String>, bool))
    requires
        old(active).status is FinalWarning,
    ensures
        spec_tick_final_warning_rel(*old(active), now, *scan, *final (active)),
        spec_store_frame(*old(store), *final (store)),
        !r.0 ==> final (notifications)@ == old(notifications)@,
        old(notifications)@.is_prefix_of(final (notifications)@),
        r.1 is Some <==> (old(active).mode is ProcessExit && spec_scan_invalid_applies(
            *old(active),
            *scan,
        )),
        r.1 matches Some(rs) ==> (match *scan {
            ScanOutcome::Invalid { schedule_id, status, reason } => rs@ == reason@,
            _ => false,
        }),
        r.2 == spec_warning_elapses(*old(active), now, *scan),
        (old(active).mode is ProcessExit && spec_scan_ready_applies(*old(active), *scan) && (
        match *scan {
            ScanOutcome::Ready { schedule_id, status, result } => result.running,
            _ => false,
        })) ==> (final (notifications)@.len() > 0 && final (notifications)@.last()@
            == spec_revert_notification_body()),
        (old(active).mode is ProcessExit && spec_scan_ready_applies(*old(active), *scan)) ==> (
        match *scan {
            ScanOutcome::Ready { schedule_id, status, result } => {
                &&& (result.running ==> (final (store).history@.len() > 0 && spec_event(
                    Some(old(active).id@),
                    "final_warning_reverted"@,
                    now,
                    "ok"@,
                    Some(spec_reverted_reason(result.source)),
                    final (store).history@.last(),
                )))
                &&& ((result.degraded_to_name && !old(active).process_match_degraded_logged)
                    ==> spec_has_event(
                    final (store).history@,
                    Some(old(active).id@),
                    "process_match_degraded"@,
                    now,
                    "ok"@,
                    Some(spec_degraded_reason()),
                ))
            },
            _ => true,
        }),
{
    let ghost a = *active;
    let mut changed = false;
    let mut fail_safe_reason: Option<String> = None;
    let mut reverted = false;

    if matches!(active.mode, ScheduleMode::ProcessExit) {
        match scan {
            ScanOutcome::Ready { schedule_id, status, result } => {
                let applies = str_eq(schedule_id.as_str(), active.id.as_str()) && *status
                    == active.status;
                if applies {
                    active.process_tree_pids = copy_u32_vec(&result.matched_pids);
                    let logged_degraded = result.degraded_to_name
                        && !active.process_match_degraded_logged;
                    if logged_degraded {
                        active.process_match_degraded_logged = true;
                        changed = true;
                        push_event(
                            store,
                            Some(active.id.clone()),
                            "process_match_degraded",
                            now,
                            "ok",
                            Some(
                                String::from_str(
                                    "advanced process matching unavailable; fell back to name matching",
                                ),
                            ),
                        );
                        proof {
                            assert(store.history@[store.history@.len() - 1]
                                == store.history@.last());
                            assert(spec_has_event_within(
                                store.history@,
                                1,
                                Some(a.id@),
                                "process_match_degraded"@,
                                now,
                                "ok"@,
                                Some(spec_degraded_reason()),
                            ));
                        }
                    }
                    let ghost h_mid = store.history@;
                    if result.running {
                        active.status = ScheduleStatus::Armed;
                        active.final_warning_started_at_ms = None;
                        active.process_missing_since_ms = None;
                        active.shutdown_initiated_at_ms = None;
                        changed = true;
                        reverted = true;
                        let mut reason = String::from_str("target process detected again (");
                        reason.append(process_match_source_label(result.source));
                        reason.append(")");
                        proof {
                            assert(reason@ =~= spec_reverted_reason(result.source));
                        }
                        push_event(
                            store,
                            Some(active.id.clone()),
                            "final_warning_reverted",
                            now,
                            "ok",
                            Some(reason),
                        );
                        notifications.push(
                            String::from_str("감시 대상이 다시 실행되어 종료를 보류했습니다."),
                        );
                        proof {
                            assert(old(notifications)@.is_prefix_of(notifications@)) by {
                                assert(notifications@ =~= notifications@.drop_last().push(
                                    notifications@.last(),
                                ));
                            }
                        }
                    }
                    proof {
                        if logged_degraded {
                            if result.running {
                                lemma_event_survives_push(
                                    h_mid,
                                    store.history@,
                                    1,
                                    Some(a.id@),
                                    "process_match_degraded"@,
                                    now,
                                    "ok"@,
                                    Some(spec_degraded_reason()),
                                );
                                lemma_within_implies_has(
                                    store.history@,
                                    2,
                                    Some(a.id@),
                                    "process_match_degraded"@,
                                    now,
                                    "ok"@,
                                    Some(spec_degraded_reason()),
                                );
                            } else {
                                lemma_within_implies_has(
                                    store.history@,
                                    1,
                                    Some(a.id@),
                                    "process_match_degraded"@,
                                    now,
                                    "ok"@,
                                    Some(spec_degraded_reason()),
                                );
                            }
                        }
                    }
                } else {
                    reverted = true;
                }
            },
            ScanOutcome::Invalid { schedule_id, status, reason } => {
                let applies = str_eq(schedule_id.as_str(), active.id.as_str()) && *status
                    == active.status;
                if applies {
                    fail_safe_reason = Some(reason.clone());
                    reset_process_exit_on_selector_failure(active);
                    changed = true;
                }
                reverted = true;
            },
            ScanOutcome::NotRequested => {},
        }
    }

    let mut execute = false;
    if !reverted && !matches!(active.status, ScheduleStatus::Armed) {
        match active.final_warning_started_at_ms {
            Some(started_at_ms) => {
                let elapsed: i128 = (now as i128) - (started_at_ms as i128);
                if elapsed >= (active.final_warning_duration_sec as i128) * 1000 {
                    execute = true;
                }
            },
            None => {
                active.final_warning_started_at_ms = Some(now);
                changed = true;
            },
        }
    }
    (changed, fail_safe_reason, execute)
}

pub open spec fn spec_fail_safe_notification_body() -> Seq<char> {
    "프로세스 종료 감시 설정이 손상되어 스케줄을 안전 중단했습니다. 감시 대상을 다시 선택해 주세요."@
}

/// One tick of the schedule engine, on the given clock, timezone and scan
/// observations. The tick fires due pre-alerts at most once each, moves an
/// elapsed or exit-confirmed schedule into its final warning, reverts a
/// process-exit warning whose target is back, recomputes the advisory
/// shutdown moment, cancels fail-safe on a broken selector — and never
/// commits to execution itself: it only reports that the final-warning
/// window has elapsed.
pub fn tick_schedule(
    store: &mut SchedulerStore,
    now: i64,
    scan: &ScanOutcome,
    tz: &TzObservation,
) -> (effects: TickEffects)
    ensures
        final (store).settings == old(store).settings,
        final (store).id_seq == old(store).id_seq,
        final (store).last_schedule_request == old(store).last_schedule_request,
        spec_history_capped_or_unchanged(old(store).history@, final (store).history@),
        old(store).active is None ==> (*final (store) == *old(store) && !effects.changed
            && effects.notifications@.len() == 0 && effects.should_execute is None),
        old(store).active matches Some(a) ==> {
            &&& (a.status is ShuttingDown ==> {
                &&& final (store).active matches Some(b)
                &&& final (store).active matches Some(b) ==> b == (ActiveSchedule {
                    shutdown_at_ms: spec_compute_shutdown_at_ms(a),
                    ..a
                })
                &&& effects.should_execute is None
                &&& effects.notifications@.len() == 0
            })
            &&& (final (store).active matches Some(b) ==> b.shutdown_at_ms
                == spec_compute_shutdown_at_ms(b))
            &&& (final (store).active matches Some(b) ==> (b.shutdown_initiated_at_ms
                == a.shutdown_initiated_at_ms || b.shutdown_initiated_at_ms is None))
            &&& (effects.should_execute matches Some(id) ==> {
                &&& id@ == a.id@
                &&& a.status is FinalWarning
                &&& spec_warning_elapses(a, now, *scan)
            })
            &&& ((a.status is Armed && (a.mode is Countdown || a.mode is SpecificTime)) ==> (final (
            store).active matches Some(b) && spec_tick_armed_time_rel(
                a,
                now,
                *tz,
                (ActiveSchedule { shutdown_at_ms: a.shutdown_at_ms, ..b }),
            )))
            &&& (a.status is Armed && a.mode is ProcessExit ==> (final (store).active
                matches Some(b) ==> spec_tick_armed_process_rel(
                a,
                now,
                *scan,
                (ActiveSchedule { shutdown_at_ms: a.shutdown_at_ms, ..b }),
            )))
            &&& (a.status is FinalWarning ==> (final (store).active matches Some(b)
                ==> spec_tick_final_warning_rel(
                a,
                now,
                *scan,
                (ActiveSchedule { shutdown_at_ms: a.shutdown_at_ms, ..b }),
            )))
            &&& (final (store).active is None ==> (spec_scan_invalid_applies(a, *scan)
                && effects.should_execute is None && effects.notifications@.len() > 0 && effects
                .notifications@.last()@ == spec_fail_safe_notification_body()))
            &&& ((a.status is Armed && (a.mode is Countdown || a.mode is SpecificTime)
                && spec_time_transition(a, *tz, now)) ==> spec_has_notification(
                effects.notifications@,
                spec_final_warning_body(a.final_warning_duration_sec),
            ))
            &&& ((a.status is FinalWarning && spec_warning_elapses(a, now, *scan))
                ==> effects.should_execute is Some)
            &&& ((a.mode is ProcessExit && (a.status is Armed || a.status is FinalWarning)
                && spec_scan_invalid_applies(a, *scan)) ==> {
                &&& final (store).active is None
                &&& effects.should_execute is None
                &&& final (store).history@.len() > 0
                &&& (match *scan {
                    ScanOutcome::Invalid { schedule_id, status, reason } => spec_event(
                        Some(a.id@),
                        "failed"@,
                        now,
                        "error"@,
                        Some(reason@),
                        final (store).history@.last(),
                    ),
                    _ => false,
                })
            })
            &&& ((a.status is Armed && (a.mode is Countdown || a.mode is SpecificTime)) ==> {
                &&& (spec_time_transition(a, *tz, now) ==> (final (store).history@.len() > 0
                    && spec_event(
                    Some(a.id@),
                    "final_warning"@,
                    now,
                    "ok"@,
                    Some(spec_time_final_warning_reason()),
                    final (store).history@.last(),
                )))
                &&& (spec_alerts_fit_log(a) ==> (forall|v: u64|
                    (match spec_tick_trigger(a, *tz) {
                        Some(t) => spec_newly_fired(a, spec_remaining_sec(t, now), v),
                        None => false,
                    }) ==> spec_has_event(
                        final (store).history@,
                        Some(a.id@),
                        "alerted"@,
                        now,
                        "ok"@,
                        Some(#[trigger] spec_alerted_reason(v)),
                    )))
                &&& ((spec_alerts_fit_log(a) && spec_realign_condition(a, *tz))
                    ==> spec_has_event(
                    final (store).history@,
                    Some(a.id@),
                    "timezone_realigned"@,
                    now,
                    "ok"@,
                    Some(spec_realigned_reason()),
                ))
            })
            &&& ((a.status is Armed && a.mode is ProcessExit && spec_scan_ready_applies(
                a,
                *scan,
            )) ==> (match *scan {
                ScanOutcome::Ready { schedule_id, status, result } => {
                    &&& ((!result.running && spec_process_fire(a, now)) ==> (final (
                    store).history@.len() > 0 && spec_event(
                        Some(a.id@),
                        "final_warning"@,
                        now,
                        "ok"@,
                        Some(spec_process_final_warning_reason()),
                        final (store).history@.last(),
                    )))
                    &&& ((result.degraded_to_name && !a.process_match_degraded_logged)
                        ==> spec_has_event(
                        final (store).history@,
                        Some(a.id@),
                        "process_match_degraded"@,
                        now,
                        "ok"@,
                        Some(spec_degraded_reason()),
                    ))
                },
                _ => true,
            }))
            &&& ((a.status is FinalWarning && a.mode is ProcessExit && spec_scan_ready_applies(
                a,
                *scan,
            )) ==> (match *scan {
                ScanOutcome::Ready { schedule_id, status, result } => {
                    &&& (result.running ==> (final (store).history@.len() > 0 && spec_event(
                        Some(a.id@),
                        "final_warning_reverted"@,
                        now,
                        "ok"@,
                        Some(spec_reverted_reason(result.source)),
                        final (store).history@.last(),
                    )))
                    &&& ((result.degraded_to_name && !a.process_match_degraded_logged)
                        ==> spec_has_event(
                        final (store).history@,
                        Some(a.id@),
                        "process_match_degraded"@,
                        now,
                        "ok"@,
                        Some(spec_degraded_reason()),
                    ))
                },
                _ => true,
            }))
        },
{
    let mut notifications: Vec<String> = Vec::new();
    let mut should_execute: Option<String> = None;
    let mut changed = false;

    let mut active = match store.active.take() {
        None => {
            return TickEffects { changed: false, notifications, should_execute: None };
        },
        Some(a) => a,
    };
    let ghost a0 = active;
    let schedule_id = active.id.clone();
    let mut fail_safe_reason: Option<String> = None;

    match active.status {
        ScheduleStatus::Armed => {
            if matches!(active.mode, ScheduleMode::ProcessExit) {
                let outcome = tick_armed_process(store, &mut active, now, scan, &mut notifications);
                changed = outcome.0;
                fail_safe_reason = outcome.1;
            } else {
                changed = tick_armed_time(store, &mut active, now, tz, &mut notifications);
            }
        },
        ScheduleStatus::FinalWarning => {
            let outcome = tick_final_warning(store, &mut active, now, scan, &mut notifications);
            changed = outcome.0;
            fail_safe_reason = outcome.1;
            if outcome.2 {
                should_execute = Some(schedule_id.clone());
            }
        },
        ScheduleStatus::ShuttingDown => {},
    }

    if sync_shutdown_at_ms(&mut active) {
        changed = true;
    }

    match fail_safe_reason {
        Some(reason) => {
            store.active = Some(active);
            apply_process_exit_fail_safe_cancel(store, schedule_id.as_str(), reason, now);
            notifications.push(
                String::from_str(
                    "프로세스 종료 감시 설정이 손상되어 스케줄을 안전 중단했습니다. 감시 대상을 다시 선택해 주세요.",
                ),
            );
            should_execute = None;
            changed = true;
        },
        None => {
            store.active = Some(active);
        },
    }

    TickEffects { changed, notifications, should_execute }
}

} // verus!
