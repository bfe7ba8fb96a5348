use autosd::dispatch::HostOs;
use autosd::dispatch::shutdown_command_plan;
use autosd::engine::apply_dispatch_outcome;
use autosd::engine::apply_settings_update;
use autosd::engine::begin_shutdown_execution;
use autosd::engine::cancel_active_schedule_internal;
use autosd::engine::default_quick_start_request;
use autosd::engine::postpone_schedule_internal;
use autosd::engine::upsert_active_schedule;
use autosd::schedule::sync_shutdown_at_ms;
use autosd::schedule::try_mark_shutdown_initiated;
use autosd::types::ActiveSchedule;
use autosd::types::ScheduleMode;
use autosd::types::ScheduleRequest;
use autosd::types::ScheduleStatus;
use autosd::types::SchedulerStore;
use autosd::types::SettingsUpdate;

fn sample_final_warning_schedule() -> ActiveSchedule {
    ActiveSchedule {
        id: "sch-test".to_string(),
        mode: ScheduleMode::Countdown,
        summary: "test".to_string(),
        armed_at_ms: 0,
        trigger_at_ms: Some(0),
        target_local_time: None,
        target_tz_offset_minutes: None,
        pre_alerts: vec![600, 300, 60],
        fired_alerts: vec![600, 300, 60],
        process_selector: None,
        process_tree_pids: Vec::new(),
        process_stable_sec: 10,
        process_missing_since_ms: None,
        snooze_until_ms: None,
        process_match_degraded_logged: false,
        status: ScheduleStatus::FinalWarning,
        final_warning_started_at_ms: Some(1_000),
        final_warning_duration_sec: 60,
        shutdown_at_ms: Some(61_000),
        shutdown_initiated_at_ms: None,
    }
}

#[test]
fn shutdown_initiation_requires_elapsed_final_warning_window() {
    let mut schedule = sample_final_warning_schedule();

    assert!(!try_mark_shutdown_initiated(&mut schedule, 60_999));
    assert_eq!(schedule.status, ScheduleStatus::FinalWarning);
    assert_eq!(schedule.shutdown_initiated_at_ms, None);

    assert!(try_mark_shutdown_initiated(&mut schedule, 61_000));
    assert_eq!(schedule.status, ScheduleStatus::ShuttingDown);
    assert_eq!(schedule.shutdown_initiated_at_ms, Some(61_000));
}

#[test]
fn shutdown_initiation_is_idempotent_after_first_transition() {
    let mut schedule = sample_final_warning_schedule();

    assert!(try_mark_shutdown_initiated(&mut schedule, 61_000));
    assert!(!try_mark_shutdown_initiated(&mut schedule, 62_000));
    assert_eq!(schedule.status, ScheduleStatus::ShuttingDown);
    assert_eq!(schedule.shutdown_initiated_at_ms, Some(61_000));
}

#[test]
fn dry_run_shutdown_logs_abortable_command_plan() {
    let windows = shutdown_command_plan(true, false, HostOs::Windows);
    assert!(windows.dry_run);
    assert!(windows.log_line().contains("DRY_RUN_SHUTDOWN_COMMAND"));
    assert!(windows.command_line.contains("shutdown /s /t"));
    assert!(windows.command_line.contains("30"));
    assert_eq!(windows.abort_hint.as_deref(), Some("shutdown /a"));

    let macos = shutdown_command_plan(true, false, HostOs::MacOs);
    assert!(macos.dry_run);
    assert!(macos.command_line.contains("osascript"));
    assert_eq!(macos.abort_hint, None);

    let other = shutdown_command_plan(true, false, HostOs::Other);
    assert!(other.dry_run);
    assert!(other.command_line.contains("unsupported"));
    assert_eq!(other.abort_hint, None);
}

#[test]
fn shutdown_at_ms_policy_for_armed_time_based_modes() {
    let mut schedule = sample_final_warning_schedule();
    schedule.status = ScheduleStatus::Armed;
    schedule.mode = ScheduleMode::Countdown;
    schedule.trigger_at_ms = Some(10_000);
    schedule.final_warning_started_at_ms = None;
    schedule.final_warning_duration_sec = 90;
    schedule.shutdown_at_ms = None;

    assert!(sync_shutdown_at_ms(&mut schedule));
    assert_eq!(schedule.shutdown_at_ms, Some(100_000));
}

#[test]
fn shutdown_at_ms_policy_for_process_exit_armed_and_final_warning() {
    let mut armed = sample_final_warning_schedule();
    armed.mode = ScheduleMode::ProcessExit;
    armed.status = ScheduleStatus::Armed;
    armed.trigger_at_ms = None;
    armed.final_warning_started_at_ms = None;
    armed.shutdown_at_ms = Some(1);

    assert!(sync_shutdown_at_ms(&mut armed));
    assert_eq!(armed.shutdown_at_ms, None);

    let mut warning = armed.clone();
    warning.status = ScheduleStatus::FinalWarning;
    warning.final_warning_started_at_ms = Some(50_000);
    warning.final_warning_duration_sec = 60;

    assert!(sync_shutdown_at_ms(&mut warning));
    assert_eq!(warning.shutdown_at_ms, Some(110_000));
}

#[test]
fn replace_validation_failure_keeps_existing_active_schedule() {
    let mut store = SchedulerStore::default();
    let mut existing = sample_final_warning_schedule();
    existing.status = ScheduleStatus::Armed;
    let existing_id = existing.id.clone();
    store.active = Some(existing);

    let invalid_request = ScheduleRequest {
        mode: ScheduleMode::Countdown,
        duration_sec: None,
        target_local_time: None,
        process_selector: None,
        pre_alerts: None,
        process_stable_sec: None,
    };

    let error = upsert_active_schedule(&mut store, invalid_request, 1_000).unwrap_err();
    assert!(error.contains("durationSec is required"));
    assert_eq!(
        store.active.as_ref().map(|active| active.id.as_str()),
        Some(existing_id.as_str())
    );
    assert!(
        store.history.is_empty(),
        "replace cancellation should not be recorded when validation fails"
    );
}

#[test]
fn arming_countdown_builds_schedule_and_logs_replacement() {
    let mut store = SchedulerStore::default();
    let summary = upsert_active_schedule(
        &mut store,
        ScheduleRequest {
            mode: ScheduleMode::Countdown,
            duration_sec: Some(3_600),
            target_local_time: None,
            process_selector: None,
            pre_alerts: None,
            process_stable_sec: None,
        },
        1_000,
    )
    .unwrap();
    assert_eq!(summary, "Countdown 60m 0s");

    let active = store.active.as_ref().unwrap();
    assert_eq!(active.id, "sch-1000-1");
    assert_eq!(active.trigger_at_ms, Some(3_601_000));
    assert_eq!(active.pre_alerts, vec![600, 300, 60]);
    assert_eq!(active.status, ScheduleStatus::Armed);
    assert_eq!(active.final_warning_duration_sec, 60);
    assert_eq!(active.shutdown_at_ms, Some(3_661_000));
    assert_eq!(store.id_seq, 1);
    assert_eq!(store.history.last().unwrap().event_type, "armed");

    let summary2 = upsert_active_schedule(
        &mut store,
        ScheduleRequest {
            mode: ScheduleMode::Countdown,
            duration_sec: Some(90),
            target_local_time: None,
            process_selector: None,
            pre_alerts: Some(vec![30]),
            process_stable_sec: None,
        },
        2_000,
    )
    .unwrap();
    assert_eq!(summary2, "Countdown 1m 30s");
    let cancelled = &store.history[store.history.len() - 2];
    assert_eq!(cancelled.event_type, "cancelled");
    assert_eq!(cancelled.reason.as_deref(), Some("cancelled(reason=replace)"));
    assert_eq!(store.active.as_ref().unwrap().pre_alerts, vec![30]);
    assert_eq!(store.id_seq, 2);
}

#[test]
fn arming_rejects_zero_and_oversized_durations() {
    let mut store = SchedulerStore::default();
    let zero = upsert_active_schedule(
        &mut store,
        ScheduleRequest {
            mode: ScheduleMode::Countdown,
            duration_sec: Some(0),
            target_local_time: None,
            process_selector: None,
            pre_alerts: None,
            process_stable_sec: None,
        },
        0,
    )
    .unwrap_err();
    assert_eq!(zero, "durationSec must be greater than zero");

    let huge = upsert_active_schedule(
        &mut store,
        ScheduleRequest {
            mode: ScheduleMode::Countdown,
            duration_sec: Some(u64::MAX),
            target_local_time: None,
            process_selector: None,
            pre_alerts: None,
            process_stable_sec: None,
        },
        0,
    )
    .unwrap_err();
    assert_eq!(huge, "duration is too large");
}

#[test]
fn cancel_and_postpone_respect_commit_point() {
    let mut store = SchedulerStore::default();
    let mut active = sample_final_warning_schedule();
    active.shutdown_initiated_at_ms = Some(61_000);
    active.status = ScheduleStatus::ShuttingDown;
    store.active = Some(active);

    let cancel_err = cancel_active_schedule_internal(&mut store, "nope", 70_000).unwrap_err();
    assert_eq!(cancel_err, "shutdown has already started; cannot cancel");
    let postpone_err = postpone_schedule_internal(&mut store, 10, "nope", 70_000).unwrap_err();
    assert_eq!(postpone_err, "shutdown has already started; cannot postpone");
    assert!(store.active.is_some());
}

#[test]
fn cancel_without_active_schedule_reports_no_change() {
    let mut store = SchedulerStore::default();
    assert_eq!(cancel_active_schedule_internal(&mut store, "reason", 0), Ok(false));
    assert!(store.history.is_empty());
}

#[test]
fn cancel_active_schedule_logs_reason() {
    let mut store = SchedulerStore::default();
    let mut active = sample_final_warning_schedule();
    active.status = ScheduleStatus::Armed;
    store.active = Some(active);

    assert_eq!(cancel_active_schedule_internal(&mut store, "user asked", 5_000), Ok(true));
    assert!(store.active.is_none());
    let event = store.history.last().unwrap();
    assert_eq!(event.event_type, "cancelled");
    assert_eq!(event.result, "ok");
    assert_eq!(event.reason.as_deref(), Some("user asked"));
    assert_eq!(event.timestamp_ms, 5_000);
}

#[test]
fn postpone_rejects_out_of_range_minutes() {
    let mut store = SchedulerStore::default();
    let err = postpone_schedule_internal(&mut store, 0, "r", 0).unwrap_err();
    assert_eq!(err, "minutes must be within 1..=1440");
    let err = postpone_schedule_internal(&mut store, 1_441, "r", 0).unwrap_err();
    assert_eq!(err, "minutes must be within 1..=1440");
    let err = postpone_schedule_internal(&mut store, 10, "r", 0).unwrap_err();
    assert_eq!(err, "no active schedule to postpone");
}

#[test]
fn postpone_converts_time_schedule_and_snoozes_process_schedule() {
    let mut store = SchedulerStore::default();
    let mut active = sample_final_warning_schedule();
    active.status = ScheduleStatus::FinalWarning;
    store.active = Some(active);

    postpone_schedule_internal(&mut store, 10, "snoozed", 100_000).unwrap();
    let snoozed = store.active.as_ref().unwrap();
    assert_eq!(snoozed.mode, ScheduleMode::Countdown);
    assert_eq!(snoozed.summary, "Snoozed for 10 minutes");
    assert_eq!(snoozed.trigger_at_ms, Some(700_000));
    assert_eq!(snoozed.status, ScheduleStatus::Armed);
    assert!(snoozed.fired_alerts.is_empty());
    assert_eq!(store.history.last().unwrap().event_type, "postponed");

    let mut process_store = SchedulerStore::default();
    let mut watcher = sample_final_warning_schedule();
    watcher.mode = ScheduleMode::ProcessExit;
    watcher.status = ScheduleStatus::FinalWarning;
    process_store.active = Some(watcher);

    postpone_schedule_internal(&mut process_store, 10, "snoozed", 100_000).unwrap();
    let snoozed_watcher = process_store.active.as_ref().unwrap();
    assert_eq!(snoozed_watcher.mode, ScheduleMode::ProcessExit);
    assert_eq!(snoozed_watcher.snooze_until_ms, Some(700_000));
    assert_eq!(snoozed_watcher.status, ScheduleStatus::Armed);
    assert_eq!(snoozed_watcher.final_warning_started_at_ms, None);
}

#[test]
fn begin_and_apply_dispatch_execute_exactly_once() {
    let mut store = SchedulerStore::default();
    let active = sample_final_warning_schedule();
    let schedule_id = active.id.clone();
    store.active = Some(active);

    assert!(begin_shutdown_execution(&mut store, "sch-other", 61_000).is_none());
    assert!(begin_shutdown_execution(&mut store, &schedule_id, 60_999).is_none());

    let settings = begin_shutdown_execution(&mut store, &schedule_id, 61_000).unwrap();
    assert_eq!(settings.final_warning_sec, 60);
    assert_eq!(store.history.last().unwrap().event_type, "shutdown_initiated");
    let committed = store.active.as_ref().unwrap();
    assert_eq!(committed.status, ScheduleStatus::ShuttingDown);
    assert_eq!(committed.shutdown_initiated_at_ms, Some(61_000));

    assert!(begin_shutdown_execution(&mut store, &schedule_id, 62_000).is_none());

    let plan = shutdown_command_plan(true, false, HostOs::Other);
    let notice = apply_dispatch_outcome(&mut store, &schedule_id, Ok(plan.clone()), 61_500);
    assert_eq!(notice.as_deref(), Some(format!("Dry run complete. {}", plan.log_line()).as_str()));
    assert!(store.active.is_none());
    let executed = store.history.last().unwrap();
    assert_eq!(executed.event_type, "executed");
    assert_eq!(executed.reason.as_deref(), Some(plan.log_line().as_str()));
}

#[test]
fn failed_dispatch_clears_schedule_and_logs_error() {
    let mut store = SchedulerStore::default();
    let mut active = sample_final_warning_schedule();
    active.status = ScheduleStatus::ShuttingDown;
    active.shutdown_initiated_at_ms = Some(61_000);
    let schedule_id = active.id.clone();
    store.active = Some(active);

    let notice = apply_dispatch_outcome(
        &mut store,
        &schedule_id,
        Err("shutdown failed with status: 1".to_string()),
        62_000,
    );
    assert_eq!(notice.as_deref(), Some("shutdown failed with status: 1"));
    assert!(store.active.is_none());
    let failed = store.history.last().unwrap();
    assert_eq!(failed.event_type, "failed");
    assert_eq!(failed.result, "error");
}

#[test]
fn settings_update_normalizes_and_validates() {
    let mut store = SchedulerStore::default();
    let mut active = sample_final_warning_schedule();
    active.status = ScheduleStatus::FinalWarning;
    store.active = Some(active);

    apply_settings_update(
        &mut store,
        &SettingsUpdate {
            default_pre_alerts: Some(vec![60, 60, 90_000, 0, 300]),
            final_warning_sec: Some(120),
            simulate_only: Some(true),
        },
        9_000,
    )
    .unwrap();
    assert_eq!(store.settings.default_pre_alerts, vec![300, 60]);
    assert_eq!(store.settings.final_warning_sec, 120);
    assert!(store.settings.simulate_only);
    assert_eq!(store.active.as_ref().unwrap().final_warning_duration_sec, 120);
    assert_eq!(store.history.last().unwrap().event_type, "settings_updated");

    let err = apply_settings_update(
        &mut store,
        &SettingsUpdate {
            default_pre_alerts: None,
            final_warning_sec: Some(301),
            simulate_only: None,
        },
        9_500,
    )
    .unwrap_err();
    assert_eq!(err, "최종 경고 시간은 15초에서 300초 사이로 설정해 주세요.");
    assert_eq!(store.settings.final_warning_sec, 120);
}

#[test]
fn quick_start_request_is_a_one_hour_countdown() {
    let store = SchedulerStore::default();
    let request = default_quick_start_request(&store.settings);
    assert_eq!(request.mode, ScheduleMode::Countdown);
    assert_eq!(request.duration_sec, Some(3_600));
    assert_eq!(request.pre_alerts, Some(vec![600, 300, 60]));
    assert_eq!(request.process_selector, None);
}
