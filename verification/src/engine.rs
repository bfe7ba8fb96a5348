//! The schedule engine's operations: arming (all-or-nothing replacement of
//! the active schedule), cancel and postpone, the bookkeeping around the
//! one-time execution, and settings updates.
use vstd::prelude::*;
use vstd::string::StringExecFns;
use crate::dispatch::ShutdownDispatchReport;
use crate::dispatch::spec_log_line;
use crate::guard::spec_cancel_refused_error;
use crate::history::push_event;
use crate::history::spec_event;
use crate::history::spec_history_after_push;
use crate::schedule::is_shutdown_execution_started;
use crate::schedule::spec_committed;
use crate::schedule::spec_compute_shutdown_at_ms;
use crate::schedule::spec_is_execution_started;
use crate::schedule::spec_should_initiate;
use crate::schedule::sync_shutdown_at_ms;
use crate::schedule::try_mark_shutdown_initiated;
use crate::selector::normalize_and_validate_process_selector;
use crate::selector::spec_normalize_text;
use crate::selector::spec_selector_empty_error;
use crate::selector::spec_selector_missing_error;
use crate::selector::spec_shell_guard_error;
use crate::selector::spec_shell_like;
use crate::settings::normalize_alerts;
use crate::settings::normalize_final_warning_sec;
use crate::settings::spec_final_warning_range_error;
use crate::settings::spec_is_normalized_alerts;
use crate::settings::spec_normalize_final_warning_sec;
use crate::settings::validate_final_warning_sec;
use crate::store::clone_settings;
use crate::store::copy_u64_vec;
use crate::text::i64_to_string;
use crate::text::lower_of;
use crate::text::spec_decimal;
use crate::text::spec_signed_decimal;
use crate::text::str_eq;
use crate::text::u64_to_string;
use crate::time::compute_next_local_target_ms;
use crate::time::current_utc_offset_minutes;
use crate::time::spec_parse_hh_mm;
use crate::types::ActiveSchedule;
use crate::types::AppSettings;
use crate::types::ProcessSelector;
use crate::types::ScheduleMode;
use crate::types::ScheduleRequest;
use crate::types::ScheduleStatus;
use crate::types::SchedulerStore;
use crate::types::SettingsUpdate;
use crate::types::opt_str_view;
use crate::types::settings_eq;

verus! {

/// The pre-alert list an arming request starts from: the request's own, or
/// the settings default.
pub open spec fn spec_requested_alerts(settings: AppSettings, request: ScheduleRequest) -> Seq<
    u64,
> {
    match request.pre_alerts {
        Some(v) => v@,
        None => settings.default_pre_alerts@,
    }
}

/// The process-stability window: the requested seconds clamped into
/// [5, 600], ten by default.
pub open spec fn spec_clamped_stable(o: Option<u64>) -> u64 {
    match o {
        None => 10,
        Some(v) => if v < 5 {
            5
        } else if v > 600 {
            600
        } else {
            v
        },
    }
}

pub open spec fn spec_countdown_summary(d: u64) -> Seq<char> {
    "Countdown "@ + spec_decimal((d / 60) as nat) + "m "@ + spec_decimal((d % 60) as nat) + "s"@
}

pub open spec fn spec_specific_time_summary(target: Seq<char>) -> Seq<char> {
    "Shutdown at local time "@ + target
}

/// How the watched process is described in the summary: by name, or by PID.
pub open spec fn spec_selector_descriptor(sel: ProcessSelector) -> Seq<char> {
    match sel.name {
        Some(n) => n@,
        None => "PID "@ + spec_decimal(
            match sel.pid {
                Some(p) => p as nat,
                None => 0,
            },
        ),
    }
}

pub open spec fn spec_process_exit_summary(sel: ProcessSelector, stable_sec: u64) -> Seq<char> {
    "Shutdown when "@ + spec_selector_descriptor(sel) + " exits (stable "@ + spec_decimal(
        stable_sec as nat,
    ) + "s)"@
}

/// The fields every newly built schedule has, whatever its mode.
pub open spec fn spec_new_schedule_common(
    settings: AppSettings,
    id_seq: u64,
    request: ScheduleRequest,
    now: i64,
    sched: ActiveSchedule,
    seq: u64,
) -> bool {
    &&& seq == id_seq + 1
    &&& sched.id@ == "sch-"@ + spec_signed_decimal(now as int) + "-"@ + spec_decimal(seq as nat)
    &&& sched.mode == request.mode
    &&& sched.armed_at_ms == now
    &&& spec_is_normalized_alerts(spec_requested_alerts(settings, request), sched.pre_alerts@)
    &&& sched.fired_alerts@.len() == 0
    &&& sched.process_tree_pids@.len() == 0
    &&& sched.process_stable_sec == spec_clamped_stable(request.process_stable_sec)
    &&& sched.process_missing_since_ms is None
    &&& sched.snooze_until_ms is None
    &&& !sched.process_match_degraded_logged
    &&& sched.status is Armed
    &&& sched.final_warning_started_at_ms is None
    &&& sched.final_warning_duration_sec == spec_normalize_final_warning_sec(
        settings.final_warning_sec,
    )
    &&& sched.shutdown_at_ms == spec_compute_shutdown_at_ms(sched)
    &&& sched.shutdown_initiated_at_ms is None
}

/// The mode-specific fields of a newly built schedule.
pub open spec fn spec_new_schedule_mode_fields(request: ScheduleRequest, sched: ActiveSchedule,
    now: i64,
) -> bool {
    match request.mode {
        ScheduleMode::Countdown => {
            &&& request.duration_sec matches Some(d)
            &&& request.duration_sec matches Some(d) ==> {
                &&& d > 0
                &&& now + d * 1000 <= i64::MAX
                &&& sched.trigger_at_ms == Some((now + d * 1000) as i64)
                &&& sched.summary@ == spec_countdown_summary(d)
            }
            &&& sched.target_local_time is None
            &&& sched.target_tz_offset_minutes is None
            &&& sched.process_selector is None
        },
        ScheduleMode::SpecificTime => {
            &&& request.target_local_time matches Some(t)
            &&& request.target_local_time matches Some(t) ==> {
                &&& spec_parse_hh_mm(t@) is Some
                &&& opt_str_view(sched.target_local_time) == Some(t@)
                &&& sched.summary@ == spec_specific_time_summary(t@)
            }
            &&& sched.trigger_at_ms is Some
            &&& sched.target_tz_offset_minutes matches Some(o) && -1440 < o < 1440
            &&& sched.process_selector is None
        },
        ScheduleMode::ProcessExit => {
            &&& sched.trigger_at_ms is None
            &&& sched.target_local_time is None
            &&& sched.target_tz_offset_minutes is None
            &&& sched.process_selector matches Some(sel)
            &&& sched.process_selector matches Some(sel) ==> {
                &&& crate::selector::spec_validated_selector(
                    request.process_selector,
                    Result::<ProcessSelector, String>::Ok(sel),
                )
                &&& sched.summary@ == spec_process_exit_summary(sel, sched.process_stable_sec)
            }
        },
    }
}

/// A selector that validation would accept: it names a PID or a non-empty
/// name, and a shell-like name comes with an advanced criterion.
pub open spec fn spec_selector_valid(o: Option<ProcessSelector>) -> bool {
    match o {
        None => false,
        Some(s) => {
            let nm = spec_normalize_text(opt_str_view(s.name));
            let ex = spec_normalize_text(opt_str_view(s.executable));
            let cm = spec_normalize_text(opt_str_view(s.cmdline_contains));
            &&& !(s.pid is None && nm is None)
            &&& !((match nm {
                Some(n) => spec_shell_like(lower_of(n)),
                None => false,
            }) && ex is None && cm is None)
        },
    }
}

/// A request the engine owes acceptance for: a countdown with a positive,
/// representable duration, or a process watch with a valid selector. A
/// wall-clock request is never owed — the local calendar may fail to
/// resolve it.
pub open spec fn spec_request_always_accepted(request: ScheduleRequest, now: i64) -> bool {
    match request.mode {
        ScheduleMode::Countdown => match request.duration_sec {
            Some(d) => d > 0 && now + d * 1000 <= i64::MAX,
            None => false,
        },
        ScheduleMode::SpecificTime => false,
        ScheduleMode::ProcessExit => spec_selector_valid(request.process_selector),
    }
}

/// The errors arming can be rejected with, each tied to the request shape
/// that causes it.
pub open spec fn spec_build_error(request: ScheduleRequest, now: i64, e: Seq<char>) -> bool {
    match request.mode {
        ScheduleMode::Countdown => {
            ||| (request.duration_sec is None && e == "durationSec is required for countdown mode"@)
            ||| (request.duration_sec == Some(0u64) && e
                == "durationSec must be greater than zero"@)
            ||| (request.duration_sec matches Some(d) && d > 0 && now + d * 1000 > i64::MAX && e
                == "duration is too large"@)
        },
        ScheduleMode::SpecificTime => {
            ||| (request.target_local_time is None && e
                == "targetLocalTime is required for specificTime mode"@)
            ||| (request.target_local_time matches Some(t) && spec_parse_hh_mm(t@) is None && e
                == crate::time::spec_bad_target_format_error())
            ||| (request.target_local_time matches Some(t) && spec_parse_hh_mm(t@) is Some && (e
                == crate::time::spec_unresolvable_target_error() || e
                == crate::time::spec_unresolvable_next_target_error()))
        },
        ScheduleMode::ProcessExit => {
            ||| (request.process_selector is None && e
                == "processSelector is required for processExit mode"@)
            ||| (request.process_selector matches Some(s) && s.pid is None && spec_normalize_text(
                opt_str_view(s.name),
            ) is None && e == spec_selector_empty_error())
            ||| (request.process_selector matches Some(s) && (match spec_normalize_text(
                opt_str_view(s.name),
            ) {
                Some(n) => spec_shell_like(lower_of(n)),
                None => false,
            }) && spec_normalize_text(opt_str_view(s.executable)) is None && spec_normalize_text(
                opt_str_view(s.cmdline_contains),
            ) is None && e == spec_shell_guard_error())
        },
    }
}

/// Build the schedule an arming request asks for, against the current
/// settings, without touching the store. Returns the schedule and the id
/// sequence value it consumed. Validation is all-or-nothing: any rejection
/// returns the error with nothing built. A countdown with a positive,
/// representable duration and a process watch with a valid selector are
/// always accepted; a wall-clock target is accepted when the local calendar
/// can place it.
pub fn build_active_schedule(store: &SchedulerStore, request: &ScheduleRequest, now: i64) -> (r:
    Result<(ActiveSchedule, u64), String>)
    requires
        store.id_seq < u64::MAX,
    ensures
        r matches Ok(p) ==> spec_new_schedule_common(
            store.settings,
            store.id_seq,
            *request,
            now,
            p.0,
            p.1,
        ) && spec_new_schedule_mode_fields(*request, p.0, now),
        r matches Err(e) ==> spec_build_error(*request, now, e@),
        (request.mode is Countdown && (match request.duration_sec {
            Some(d) => d > 0 && now + d * 1000 <= i64::MAX,
            None => false,
        })) ==> r is Ok,
        (request.mode is ProcessExit && spec_selector_valid(request.process_selector)) ==> r is Ok,
{
    let pre_alerts = match &request.pre_alerts {
        Some(v) => normalize_alerts(v),
        None => normalize_alerts(&store.settings.default_pre_alerts),
    };
    let process_stable_sec: u64 = match request.process_stable_sec {
        None => 10,
        Some(v) => if v < 5 {
            5
        } else if v > 600 {
            600
        } else {
            v
        },
    };

    let mode = request.mode;
    let trigger_at_ms: Option<i64>;
    let target_local_time: Option<String>;
    let target_tz_offset_minutes: Option<i32>;
    let summary: String;
    let process_selector: Option<ProcessSelector>;
    match mode {
        ScheduleMode::Countdown => {
            let duration = match request.duration_sec {
                Some(d) => d,
                None => {
                    return Err(String::from_str("durationSec is required for countdown mode"));
                },
            };
            if duration == 0 {
                return Err(String::from_str("durationSec must be greater than zero"));
            }
            let trigger: i128 = (now as i128) + (duration as i128) * 1000;
            if trigger > i64::MAX as i128 {
                return Err(String::from_str("duration is too large"));
            }
            let mut s = String::from_str("Countdown ");
            let minutes = u64_to_string(duration / 60);
            s.append(minutes.as_str());
            s.append("m ");
            let seconds = u64_to_string(duration % 60);
            s.append(seconds.as_str());
            s.append("s");
            proof {
                assert(s@ =~= spec_countdown_summary(duration));
            }
            trigger_at_ms = Some(trigger as i64);
            target_local_time = None;
            target_tz_offset_minutes = None;
            summary = s;
            process_selector = None;
        },
        ScheduleMode::SpecificTime => {
            let target = match &request.target_local_time {
                Some(t) => t.clone(),
                None => {
                    return Err(String::from_str("targetLocalTime is required for specificTime mode"));
                },
            };
            let trigger = match compute_next_local_target_ms(target.as_str(), now) {
                Ok(v) => v,
                Err(e) => {
                    return Err(e);
                },
            };
            let offset = current_utc_offset_minutes();
            let mut s = String::from_str("Shutdown at local time ");
            s.append(target.as_str());
            proof {
                assert(s@ =~= spec_specific_time_summary(target@));
            }
            trigger_at_ms = Some(trigger);
            target_local_time = Some(target);
            target_tz_offset_minutes = Some(offset);
            summary = s;
            process_selector = None;
        },
        ScheduleMode::ProcessExit => {
            let selector = match normalize_and_validate_process_selector(
                request.process_selector.as_ref(),
            ) {
                Ok(s) => s,
                Err(e) => {
                    proof {
                        reveal_strlit("process selector is missing");
                        reveal_strlit("process selector is empty");
                        reveal_strlit("processSelector is required for processExit mode");
                        reveal_strlit(
                            "shell 계열 프로세스는 오탐 방지를 위해 executable 또는 cmdlineContains가 필요합니다.",
                        );
                    }
                    if str_eq(e.as_str(), "process selector is missing") {
                        proof {
                            assert(spec_selector_missing_error().len() == 27);
                            assert(spec_selector_empty_error().len() == 25);
                            assert(e@ != spec_shell_guard_error());
                        }
                        return Err(
                            String::from_str("processSelector is required for processExit mode"),
                        );
                    }
                    return Err(e);
                },
            };
            let descriptor: String = match &selector.name {
                Some(n) => n.clone(),
                None => {
                    match selector.pid {
                        Some(pid) => {
                            let mut d = String::from_str("PID ");
                            let digits = u64_to_string(pid as u64);
                            d.append(digits.as_str());
                            d
                        },
                        None => {
                            // a validated selector always has a name or a PID
                            proof {
                                assert(false);
                            }
                            return Err(String::from_str("process selector is empty"));
                        },
                    }
                },
            };
            let mut s = String::from_str("Shutdown when ");
            s.append(descriptor.as_str());
            s.append(" exits (stable ");
            let stable = u64_to_string(process_stable_sec);
            s.append(stable.as_str());
            s.append("s)");
            proof {
                assert(s@ =~= spec_process_exit_summary(selector, process_stable_sec));
            }
            trigger_at_ms = None;
            target_local_time = None;
            target_tz_offset_minutes = None;
            summary = s;
            process_selector = Some(selector);
        },
    }

    let seq: u64 = store.id_seq + 1;
    let mut id = String::from_str("sch-");
    let ts = i64_to_string(now);
    id.append(ts.as_str());
    id.append("-");
    let seq_digits = u64_to_string(seq);
    id.append(seq_digits.as_str());
    proof {
        assert(id@ =~= "sch-"@ + spec_signed_decimal(now as int) + "-"@ + spec_decimal(seq as nat));
    }

    let mut next = ActiveSchedule {
        id,
        mode,
        summary,
        armed_at_ms: now,
        trigger_at_ms,
        target_local_time,
        target_tz_offset_minutes,
        pre_alerts,
        fired_alerts: Vec::new(),
        process_selector,
        process_tree_pids: Vec::new(),
        process_stable_sec,
        process_missing_since_ms: None,
        snooze_until_ms: None,
        process_match_degraded_logged: false,
        status: ScheduleStatus::Armed,
        final_warning_started_at_ms: None,
        final_warning_duration_sec: normalize_final_warning_sec(store.settings.final_warning_sec),
        shutdown_at_ms: None,
        shutdown_initiated_at_ms: None,
    };
    let _ = sync_shutdown_at_ms(&mut next);
    Ok((next, seq))
}

pub open spec fn spec_replace_refused_error() -> Seq<char> {
    "shutdown has already started; cannot replace active schedule"@
}

pub open spec fn spec_replace_cancel_reason() -> Seq<char> {
    "cancelled(reason=replace)"@
}

/// Arm a schedule, replacing any cancelable active one atomically: a
/// committed schedule refuses replacement (and nothing else is refused with
/// that message), a rejected request leaves the store exactly as it was
/// with the validation error arming owes it, and an accepted one logs the
/// replacement cancellation (when something was replaced) and the arming.
/// A request that is always acceptable — a positive countdown, a valid
/// process watch — is accepted whenever no committed schedule stands in the
/// way. Returns the new schedule's summary.
pub fn upsert_active_schedule(store: &mut SchedulerStore, request: ScheduleRequest, now: i64) -> (r:
    Result<String, String>)
    requires
        old(store).id_seq < u64::MAX,
    ensures
        (match old(store).active {
            Some(a) => spec_is_execution_started(a),
            None => false,
        }) ==> (r matches Err(e) && e@ == spec_replace_refused_error()),
        r matches Err(e) ==> {
            &&& *final (store) == *old(store)
            &&& if (match old(store).active {
                Some(a) => spec_is_execution_started(a),
                None => false,
            }) {
                e@ == spec_replace_refused_error()
            } else {
                spec_build_error(request, now, e@)
            }
        },
        (!(match old(store).active {
            Some(a) => spec_is_execution_started(a),
            None => false,
        }) && spec_request_always_accepted(request, now)) ==> r is Ok,
        r matches Ok(summary) ==> {
            &&& final (store).active matches Some(next)
            &&& final (store).active matches Some(next) ==> {
                &&& spec_new_schedule_common(
                    old(store).settings,
                    old(store).id_seq,
                    request,
                    now,
                    next,
                    final (store).id_seq,
                )
                &&& spec_new_schedule_mode_fields(request, next, now)
                &&& summary@ == next.summary@
                &&& (match final (store).last_schedule_request {
                    Some(stored) => stored == request,
                    None => false,
                })
                &&& (match old(store).active {
                    None => spec_history_after_push(old(store).history@, final (store).history@)
                        && spec_event(
                        Some(next.id@),
                        "armed"@,
                        now,
                        "ok"@,
                        Some(next.summary@),
                        final (store).history@.last(),
                    ),
                    Some(prev) => exists|mid: Seq<crate::types::ExecutionEvent>|
                        {
                            &&& spec_history_after_push(old(store).history@, mid)
                            &&& spec_event(
                                Some(prev.id@),
                                "cancelled"@,
                                now,
                                "ok"@,
                                Some(spec_replace_cancel_reason()),
                                mid.last(),
                            )
                            &&& mid.len() > 0
                            &&& spec_history_after_push(mid, final (store).history@)
                            &&& spec_event(
                                Some(next.id@),
                                "armed"@,
                                now,
                                "ok"@,
                                Some(next.summary@),
                                final (store).history@.last(),
                            )
                        },
                })
            }
            &&& final (store).settings == old(store).settings
        },
{
    match &store.active {
        Some(existing) => {
            if is_shutdown_execution_started(existing) {
                return Err(
                    String::from_str("shutdown has already started; cannot replace active schedule"),
                );
            }
        },
        None => {},
    }

    let built = match build_active_schedule(store, &request, now) {
        Ok(p) => p,
        Err(e) => {
            return Err(e);
        },
    };
    let (next, new_seq) = built;
    let next_id = next.id.clone();
    let summary = next.summary.clone();

    let prev_id: Option<String> = match &store.active {
        Some(existing) => Some(existing.id.clone()),
        None => None,
    };
    store.active = None;
    match prev_id {
        Some(pid) => {
            push_event(
                store,
                Some(pid),
                "cancelled",
                now,
                "ok",
                Some(String::from_str("cancelled(reason=replace)")),
            );
        },
        None => {},
    }
    let ghost mid_history = store.history@;

    store.id_seq = new_seq;
    store.active = Some(next);
    store.last_schedule_request = Some(request);
    push_event(store, Some(next_id), "armed", now, "ok", Some(summary.clone()));
    Ok(summary)
}

pub open spec fn spec_no_active_postpone_error() -> Seq<char> {
    "no active schedule to postpone"@
}

pub open spec fn spec_postpone_refused_error() -> Seq<char> {
    "shutdown has already started; cannot postpone"@
}

pub open spec fn spec_postpone_range_error() -> Seq<char> {
    "minutes must be within 1..=1440"@
}

/// How a postponed schedule relates to what it was: a process watch keeps
/// its mode and gains a snooze window; a time-based schedule becomes a
/// fresh countdown with its alert and process state cleared. Both return to
/// `Armed` with the commit state cleared.
pub open spec fn spec_postponed(a: ActiveSchedule, minutes: u64, now: i64, b: ActiveSchedule) -> bool {
    if a.mode is ProcessExit {
        {
            let c = ActiveSchedule {
                status: ScheduleStatus::Armed,
                final_warning_started_at_ms: None,
                process_missing_since_ms: None,
                snooze_until_ms: Some((now + minutes * 60000) as i64),
                shutdown_initiated_at_ms: None,
                ..a
            };
            b == (ActiveSchedule { shutdown_at_ms: spec_compute_shutdown_at_ms(c), ..c })
        }
    } else {
        {
            &&& b.id@ == a.id@
            &&& b.mode is Countdown
            &&& b.summary@ == "Snoozed for "@ + spec_decimal(minutes as nat) + " minutes"@
            &&& b.armed_at_ms == a.armed_at_ms
            &&& b.trigger_at_ms == Some((now + minutes * 60000) as i64)
            &&& b.target_local_time is None
            &&& b.target_tz_offset_minutes is None
            &&& b.pre_alerts@ == a.pre_alerts@
            &&& b.fired_alerts@.len() == 0
            &&& b.process_selector is None
            &&& b.process_tree_pids@.len() == 0
            &&& b.process_stable_sec == a.process_stable_sec
            &&& b.process_missing_since_ms is None
            &&& b.snooze_until_ms is None
            &&& !b.process_match_degraded_logged
            &&& b.status is Armed
            &&& b.final_warning_started_at_ms is None
            &&& b.final_warning_duration_sec == a.final_warning_duration_sec
            &&& b.shutdown_at_ms == spec_compute_shutdown_at_ms(b)
            &&& b.shutdown_initiated_at_ms is None
        }
    }
}

/// Postpone the active schedule by the given minutes (1 to 1440): a snooze
/// for a process watch, an in-place conversion to a fresh countdown for a
/// time-based schedule. Refused once committed, and the rejection reasons
/// leave the store untouched.
pub fn postpone_schedule_internal(
    store: &mut SchedulerStore,
    minutes: u64,
    reason: &str,
    now: i64,
) -> (r: Result<(), String>)
    requires
        now <= i64::MAX - 86_400_000,
    ensures
        r matches Err(e) ==> {
            &&& *final (store) == *old(store)
            &&& ((minutes == 0 || minutes > 1440) && e@ == spec_postpone_range_error() || (1
                <= minutes <= 1440 && old(store).active is None && e@
                == spec_no_active_postpone_error()) || (1 <= minutes <= 1440 && (match old(
                store,
            ).active {
                Some(a) => spec_is_execution_started(a),
                None => false,
            }) && e@ == spec_postpone_refused_error()))
        },
        r is Ok ==> {
            &&& 1 <= minutes <= 1440
            &&& old(store).active matches Some(a)
            &&& old(store).active matches Some(a) ==> {
                &&& !spec_is_execution_started(a)
                &&& final (store).active matches Some(b) && spec_postponed(a, minutes, now, b)
                &&& spec_history_after_push(old(store).history@, final (store).history@)
                &&& spec_event(
                    Some(a.id@),
                    "postponed"@,
                    now,
                    "ok"@,
                    Some(reason@),
                    final (store).history@.last(),
                )
            }
            &&& final (store).settings == old(store).settings
            &&& final (store).id_seq == old(store).id_seq
            &&& final (store).last_schedule_request == old(store).last_schedule_request
        },
{
    if minutes == 0 || minutes > 1440 {
        return Err(String::from_str("minutes must be within 1..=1440"));
    }

    let schedule_id: String;
    match &mut store.active {
        None => {
            return Err(String::from_str("no active schedule to postpone"));
        },
        Some(active) => {
            if is_shutdown_execution_started(active) {
                return Err(String::from_str("shutdown has already started; cannot postpone"));
            }
            schedule_id = active.id.clone();
            let postpone_ms: i64 = (minutes * 60000) as i64;
            if matches!(active.mode, ScheduleMode::ProcessExit) {
                active.status = ScheduleStatus::Armed;
                active.final_warning_started_at_ms = None;
                active.process_missing_since_ms = None;
                active.snooze_until_ms = Some(now + postpone_ms);
                active.shutdown_initiated_at_ms = None;
            } else {
                active.mode = ScheduleMode::Countdown;
                let mut s = String::from_str("Snoozed for ");
                let m = u64_to_string(minutes);
                s.append(m.as_str());
                s.append(" minutes");
                proof {
                    assert(s@ =~= "Snoozed for "@ + spec_decimal(minutes as nat) + " minutes"@);
                }
                active.summary = s;
                active.trigger_at_ms = Some(now + postpone_ms);
                active.target_local_time = None;
                active.target_tz_offset_minutes = None;
                active.status = ScheduleStatus::Armed;
                active.final_warning_started_at_ms = None;
                active.fired_alerts.clear();
                active.process_missing_since_ms = None;
                active.process_selector = None;
                active.process_tree_pids.clear();
                active.snooze_until_ms = None;
                active.process_match_degraded_logged = false;
                active.shutdown_initiated_at_ms = None;
                proof {
                    assert(active.fired_alerts@ =~= Seq::<u64>::empty());
                    assert(active.process_tree_pids@ =~= Seq::<u32>::empty());
                }
            }
            let _ = sync_shutdown_at_ms(active);
        },
    }
    push_event(store, Some(schedule_id), "postponed", now, "ok", Some(String::from_str(reason)));
    Ok(())
}

/// Cancel the active schedule for the given reason: nothing to do without
/// one (reported as unchanged), refused once committed, otherwise the
/// schedule is dropped and the cancellation logged. Returns whether the
/// store changed.
pub fn cancel_active_schedule_internal(store: &mut SchedulerStore, reason: &str, now: i64) -> (r:
    Result<bool, String>)
    ensures
        old(store).active is None ==> (r == Ok::<bool, String>(false) && *final (store) == *old(
            store,
        )),
        (match old(store).active {
            Some(a) => spec_is_execution_started(a),
            None => false,
        }) ==> (r matches Err(e) && e@ == spec_cancel_refused_error() && *final (store) == *old(
            store,
        )),
        (match old(store).active {
            Some(a) => !spec_is_execution_started(a),
            None => false,
        }) ==> {
            &&& r == Ok::<bool, String>(true)
            &&& final (store).active is None
            &&& spec_history_after_push(old(store).history@, final (store).history@)
            &&& spec_event(
                Some(old(store).active->Some_0.id@),
                "cancelled"@,
                now,
                "ok"@,
                Some(reason@),
                final (store).history@.last(),
            )
            &&& final (store).settings == old(store).settings
            &&& final (store).id_seq == old(store).id_seq
            &&& final (store).last_schedule_request == old(store).last_schedule_request
        },
{
    let schedule_id: String = match &store.active {
        None => {
            return Ok(false);
        },
        Some(active) => {
            if is_shutdown_execution_started(active) {
                return Err(String::from_str("shutdown has already started; cannot cancel"));
            }
            active.id.clone()
        },
    };
    store.active = None;
    push_event(store, Some(schedule_id), "cancelled", now, "ok", Some(String::from_str(reason)));
    Ok(true)
}

pub open spec fn spec_shutdown_initiated_reason() -> Seq<char> {
    "final warning elapsed; shutdown command starting"@
}

/// Begin execution of the committed shutdown: succeeds only when the named
/// schedule is still the active one and its final-warning window has
/// elapsed on an uncommitted schedule. On success the schedule is committed
/// (exactly once), the commit is logged, and the settings to dispatch with
/// are returned. Everything else returns nothing and changes nothing.
pub fn begin_shutdown_execution(store: &mut SchedulerStore, schedule_id: &str, now: i64) -> (r:
    Option<AppSettings>)
    ensures
        (match old(store).active {
            Some(a) => a.id@ == schedule_id@ && spec_should_initiate(a, now),
            None => false,
        }) <==> r is Some,
        r is None ==> *final (store) == *old(store),
        r matches Some(st) ==> {
            &&& settings_eq(st, old(store).settings)
            &&& old(store).active matches Some(a)
            &&& old(store).active matches Some(a) ==> {
                &&& final (store).active matches Some(b)
                &&& final (store).active matches Some(b) ==> b == (ActiveSchedule {
                    shutdown_at_ms: spec_compute_shutdown_at_ms(spec_committed(a, now)),
                    ..spec_committed(a, now)
                })
                &&& spec_history_after_push(old(store).history@, final (store).history@)
                &&& spec_event(
                    Some(a.id@),
                    "shutdown_initiated"@,
                    now,
                    "ok"@,
                    Some(spec_shutdown_initiated_reason()),
                    final (store).history@.last(),
                )
            }
            &&& final (store).settings == old(store).settings
            &&& final (store).id_seq == old(store).id_seq
            &&& final (store).last_schedule_request == old(store).last_schedule_request
        },
{
    let marked: bool;
    match &mut store.active {
        None => {
            return None;
        },
        Some(active) => {
            if !str_eq(active.id.as_str(), schedule_id) {
                return None;
            }
            marked = try_mark_shutdown_initiated(active, now);
            if !marked {
                return None;
            }
            let _ = sync_shutdown_at_ms(active);
        },
    }
    push_event(
        store,
        Some(String::from_str(schedule_id)),
        "shutdown_initiated",
        now,
        "ok",
        Some(String::from_str("final warning elapsed; shutdown command starting")),
    );
    Some(clone_settings(&store.settings))
}

/// Record the outcome of the dispatched shutdown command: success logs the
/// dispatch report, failure logs the error; either way the schedule is
/// cleared when it is still the named one, and the user must re-arm after a
/// failure — there is no automatic retry. Returns the notification text
/// owed, if any: the dry-run confirmation, or the failure message.
pub fn apply_dispatch_outcome(
    store: &mut SchedulerStore,
    schedule_id: &str,
    outcome: Result<ShutdownDispatchReport, String>,
    now: i64,
) -> (r: Option<String>)
    ensures
        spec_history_after_push(old(store).history@, final (store).history@),
        (match outcome {
            Ok(dispatch) => spec_event(
                Some(schedule_id@),
                "executed"@,
                now,
                "ok"@,
                Some(spec_log_line(dispatch)),
                final (store).history@.last(),
            ) && (if dispatch.dry_run {
                r matches Some(b) && b@ == "Dry run complete. "@ + spec_log_line(dispatch)
            } else {
                r is None
            }),
            Err(error) => spec_event(
                Some(schedule_id@),
                "failed"@,
                now,
                "error"@,
                Some(error@),
                final (store).history@.last(),
            ) && (r matches Some(b) && b@ == error@),
        }),
        (match old(store).active {
            Some(a) => a.id@ == schedule_id@,
            None => false,
        }) ==> final (store).active is None,
        !(match old(store).active {
            Some(a) => a.id@ == schedule_id@,
            None => false,
        }) ==> final (store).active == old(store).active,
        final (store).settings == old(store).settings,
        final (store).id_seq == old(store).id_seq,
        final (store).last_schedule_request == old(store).last_schedule_request,
{
    let notification: Option<String>;
    match outcome {
        Ok(dispatch) => {
            let log = dispatch.log_line();
            push_event(
                store,
                Some(String::from_str(schedule_id)),
                "executed",
                now,
                "ok",
                Some(log.clone()),
            );
            if dispatch.dry_run {
                let mut body = String::from_str("Dry run complete. ");
                body.append(log.as_str());
                notification = Some(body);
            } else {
                notification = None;
            }
        },
        Err(error) => {
            push_event(
                store,
                Some(String::from_str(schedule_id)),
                "failed",
                now,
                "error",
                Some(error.clone()),
            );
            notification = Some(error);
        },
    }
    let matches_active: bool = match &store.active {
        Some(active) => str_eq(active.id.as_str(), schedule_id),
        None => false,
    };
    if matches_active {
        store.active = None;
    }
    notification
}

/// The default quick-start request: a one-hour countdown with the settings'
/// pre-alerts.
pub fn default_quick_start_request(settings: &AppSettings) -> (r: ScheduleRequest)
    ensures
        r.mode is Countdown,
        r.duration_sec == Some(3600u64),
        r.target_local_time is None,
        r.process_selector is None,
        (match r.pre_alerts {
            Some(v) => v@ == settings.default_pre_alerts@,
            None => false,
        }),
        r.process_stable_sec is None,
{
    ScheduleRequest {
        mode: ScheduleMode::Countdown,
        duration_sec: Some(3600),
        target_local_time: None,
        process_selector: None,
        pre_alerts: Some(copy_u64_vec(&settings.default_pre_alerts)),
        process_stable_sec: None,
    }
}

/// Apply a partial settings update: pre-alerts are normalized, the
/// final-warning duration must pass validation (rejection reports the range
/// error), and an active schedule immediately adopts the new final-warning
/// duration. The update is logged.
pub fn apply_settings_update(store: &mut SchedulerStore, updates: &SettingsUpdate, now: i64) -> (r:
    Result<(), String>)
    ensures
        (match updates.default_pre_alerts {
            Some(v) => spec_is_normalized_alerts(v@, final (store).settings.default_pre_alerts@),
            None => final (store).settings.default_pre_alerts@ == old(
                store,
            ).settings.default_pre_alerts@,
        }),
        r matches Err(e) ==> {
            &&& e@ == spec_final_warning_range_error()
            &&& (match updates.final_warning_sec {
                Some(v) => !(crate::settings::FINAL_WARNING_MIN_SEC <= v
                    && v <= crate::settings::FINAL_WARNING_MAX_SEC),
                None => false,
            })
            &&& final (store).settings.final_warning_sec == old(store).settings.final_warning_sec
            &&& final (store).settings.simulate_only == old(store).settings.simulate_only
            &&& final (store).active == old(store).active
            &&& final (store).history == old(store).history
            &&& final (store).id_seq == old(store).id_seq
            &&& final (store).last_schedule_request == old(store).last_schedule_request
        },
        r is Ok ==> {
            &&& (match updates.final_warning_sec {
                Some(v) => crate::settings::FINAL_WARNING_MIN_SEC <= v
                    && v <= crate::settings::FINAL_WARNING_MAX_SEC
                    && final (store).settings.final_warning_sec == v,
                None => final (store).settings.final_warning_sec == old(
                    store,
                ).settings.final_warning_sec,
            })
            &&& (match updates.simulate_only {
                Some(v) => final (store).settings.simulate_only == v,
                None => final (store).settings.simulate_only == old(store).settings.simulate_only,
            })
            &&& (match old(store).active {
                None => final (store).active is None,
                Some(a) => final (store).active matches Some(b) && {
                    let c = ActiveSchedule {
                        final_warning_duration_sec: final (store).settings.final_warning_sec,
                        ..a
                    };
                    b == (ActiveSchedule { shutdown_at_ms: spec_compute_shutdown_at_ms(c), ..c })
                },
            })
            &&& spec_history_after_push(old(store).history@, final (store).history@)
            &&& spec_event(
                None,
                "settings_updated"@,
                now,
                "ok"@,
                Some("settings were updated"@),
                final (store).history@.last(),
            )
            &&& final (store).id_seq == old(store).id_seq
            &&& final (store).last_schedule_request == old(store).last_schedule_request
        },
{
    match &updates.default_pre_alerts {
        Some(alerts) => {
            store.settings.default_pre_alerts = normalize_alerts(alerts);
        },
        None => {},
    }

    match updates.final_warning_sec {
        Some(final_warning_sec) => {
            match validate_final_warning_sec(final_warning_sec) {
                Ok(v) => {
                    store.settings.final_warning_sec = v;
                },
                Err(e) => {
                    return Err(e);
                },
            }
        },
        None => {},
    }

    match updates.simulate_only {
        Some(simulate_only) => {
            store.settings.simulate_only = simulate_only;
        },
        None => {},
    }

    let final_warning_sec = store.settings.final_warning_sec;
    match &mut store.active {
        Some(active) => {
            active.final_warning_duration_sec = final_warning_sec;
            let _ = sync_shutdown_at_ms(active);
        },
        None => {},
    }

    push_event(
        store,
        None,
        "settings_updated",
        now,
        "ok",
        Some(String::from_str("settings were updated")),
    );
    Ok(())
}

} // verus!
