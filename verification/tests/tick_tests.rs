use autosd::engine::apply_dispatch_outcome;
use autosd::engine::begin_shutdown_execution;
use autosd::engine::upsert_active_schedule;
use autosd::dispatch::HostOs;
use autosd::dispatch::shutdown_command_plan;
use autosd::guard::QuitGuardAction;
use autosd::guard::QuitResolutionOutcome;
use autosd::guard::active_status_requiring_quit_guard;
use autosd::guard::apply_quit_guard_action;
use autosd::guard::consume_allow_exit_once;
use autosd::guard::is_quit_guard_status;
use autosd::guard::set_allow_exit_once;
use autosd::matcher::ProcessMatchResult;
use autosd::matcher::ProcessMatchSource;
use autosd::notify::pre_alert_notification_body;
use autosd::notify::tray_status_message;
use autosd::tick::ScanOutcome;
use autosd::tick::ScanRequest;
use autosd::tick::TzObservation;
use autosd::tick::plan_process_scan;
use autosd::tick::tick_schedule;
use autosd::types::ActiveSchedule;
use autosd::types::ProcessSelector;
use autosd::types::RuntimeState;
use autosd::types::ScheduleMode;
use autosd::types::ScheduleRequest;
use autosd::types::ScheduleStatus;
use autosd::types::SchedulerStore;

fn no_tz() -> TzObservation {
    TzObservation { current_offset_minutes: 0, recomputed_target_ms: None }
}

fn absent_scan(id: &str, status: ScheduleStatus) -> ScanOutcome {
    ScanOutcome::Ready {
        schedule_id: id.to_string(),
        status,
        result: ProcessMatchResult {
            running: false,
            matched_pids: Vec::new(),
            source: ProcessMatchSource::NoMatch,
            degraded_to_name: false,
        },
    }
}

fn running_scan(id: &str, status: ScheduleStatus, pids: Vec<u32>) -> ScanOutcome {
    ScanOutcome::Ready {
        schedule_id: id.to_string(),
        status,
        result: ProcessMatchResult {
            running: true,
            matched_pids: pids,
            source: ProcessMatchSource::PidTree,
            degraded_to_name: false,
        },
    }
}

fn sample_process_schedule() -> ActiveSchedule {
    ActiveSchedule {
        id: "sch-watch".to_string(),
        mode: ScheduleMode::ProcessExit,
        summary: "watch".to_string(),
        armed_at_ms: 0,
        trigger_at_ms: None,
        target_local_time: None,
        target_tz_offset_minutes: None,
        pre_alerts: vec![600, 300, 60],
        fired_alerts: Vec::new(),
        process_selector: Some(ProcessSelector {
            pid: Some(4242),
            name: None,
            executable: None,
            cmdline_contains: None,
        }),
        process_tree_pids: Vec::new(),
        process_stable_sec: 10,
        process_missing_since_ms: None,
        snooze_until_ms: None,
        process_match_degraded_logged: false,
        status: ScheduleStatus::Armed,
        final_warning_started_at_ms: None,
        final_warning_duration_sec: 60,
        shutdown_at_ms: None,
        shutdown_initiated_at_ms: None,
    }
}

#[test]
fn countdown_fires_alerts_warns_and_executes_once() {
    let mut store = SchedulerStore::default();
    upsert_active_schedule(
        &mut store,
        ScheduleRequest {
            mode: ScheduleMode::Countdown,
            duration_sec: Some(3_600),
            target_local_time: None,
            process_selector: None,
            pre_alerts: None,
            process_stable_sec: None,
        },
        0,
    )
    .unwrap();
    let schedule_id = store.active.as_ref().unwrap().id.clone();

    // remaining 600s: the 600s pre-alert fires, once.
    let effects = tick_schedule(&mut store, 3_000_000, &ScanOutcome::NotRequested, &no_tz());
    assert!(effects.changed);
    assert_eq!(store.active.as_ref().unwrap().fired_alerts, vec![600]);
    assert_eq!(store.history.last().unwrap().event_type, "alerted");
    assert_eq!(effects.notifications, vec![pre_alert_notification_body(600)]);
    assert!(effects.should_execute.is_none());

    let again = tick_schedule(&mut store, 3_000_000, &ScanOutcome::NotRequested, &no_tz());
    assert_eq!(store.active.as_ref().unwrap().fired_alerts, vec![600]);
    assert!(again.notifications.is_empty());

    // remaining 0: final warning starts.
    let warn = tick_schedule(&mut store, 3_600_000, &ScanOutcome::NotRequested, &no_tz());
    assert!(warn.changed);
    let active = store.active.as_ref().unwrap();
    assert_eq!(active.status, ScheduleStatus::FinalWarning);
    assert_eq!(active.final_warning_started_at_ms, Some(3_600_000));
    assert_eq!(active.fired_alerts, vec![600]);
    assert_eq!(active.shutdown_at_ms, Some(3_660_000));
    assert!(warn.should_execute.is_none());

    // 60s later the warning elapses and execution is due, exactly once.
    let due = tick_schedule(&mut store, 3_660_000, &ScanOutcome::NotRequested, &no_tz());
    assert_eq!(due.should_execute.as_deref(), Some(schedule_id.as_str()));

    let settings = begin_shutdown_execution(&mut store, &schedule_id, 3_660_000).unwrap();
    assert!(begin_shutdown_execution(&mut store, &schedule_id, 3_661_000).is_none());
    assert!(!settings.simulate_only);
    let plan = shutdown_command_plan(true, false, HostOs::Other);
    apply_dispatch_outcome(&mut store, &schedule_id, Ok(plan), 3_660_500);
    assert!(store.active.is_none());
    assert_eq!(store.history.last().unwrap().event_type, "executed");
}

#[test]
fn process_exit_waits_for_stability_then_warns_and_reverts() {
    let mut store = SchedulerStore::default();
    store.active = Some(sample_process_schedule());

    // absent for 0s: the absence is stamped.
    tick_schedule(&mut store, 0, &absent_scan("sch-watch", ScheduleStatus::Armed), &no_tz());
    assert_eq!(store.active.as_ref().unwrap().process_missing_since_ms, Some(0));
    assert_eq!(store.active.as_ref().unwrap().status, ScheduleStatus::Armed);

    // absent for 9s: still armed.
    tick_schedule(&mut store, 9_000, &absent_scan("sch-watch", ScheduleStatus::Armed), &no_tz());
    assert_eq!(store.active.as_ref().unwrap().status, ScheduleStatus::Armed);

    // absent for 10s: the final warning starts.
    let warn = tick_schedule(
        &mut store,
        10_000,
        &absent_scan("sch-watch", ScheduleStatus::Armed),
        &no_tz(),
    );
    let active = store.active.as_ref().unwrap();
    assert_eq!(active.status, ScheduleStatus::FinalWarning);
    assert_eq!(active.final_warning_started_at_ms, Some(10_000));
    assert!(warn.should_execute.is_none());
    assert!(warn.notifications.iter().any(|body| body.contains("프로세스 종료가 감지되어")));

    // the target reappears before the warning elapses: revert to armed.
    let revert = tick_schedule(
        &mut store,
        20_000,
        &running_scan("sch-watch", ScheduleStatus::FinalWarning, vec![4242]),
        &no_tz(),
    );
    let active = store.active.as_ref().unwrap();
    assert_eq!(active.status, ScheduleStatus::Armed);
    assert_eq!(active.final_warning_started_at_ms, None);
    assert_eq!(active.process_tree_pids, vec![4242]);
    assert!(revert.should_execute.is_none());
    assert_eq!(store.history.last().unwrap().event_type, "final_warning_reverted");
}

#[test]
fn process_exit_snooze_defers_the_warning() {
    let mut store = SchedulerStore::default();
    let mut schedule = sample_process_schedule();
    schedule.snooze_until_ms = Some(60_000);
    schedule.process_missing_since_ms = Some(0);
    store.active = Some(schedule);

    tick_schedule(&mut store, 30_000, &absent_scan("sch-watch", ScheduleStatus::Armed), &no_tz());
    assert_eq!(store.active.as_ref().unwrap().status, ScheduleStatus::Armed);

    tick_schedule(&mut store, 60_000, &absent_scan("sch-watch", ScheduleStatus::Armed), &no_tz());
    let active = store.active.as_ref().unwrap();
    assert_eq!(active.status, ScheduleStatus::FinalWarning);
    assert_eq!(active.snooze_until_ms, None);
}

#[test]
fn invalid_selector_cancels_fail_safe() {
    let mut store = SchedulerStore::default();
    let mut schedule = sample_process_schedule();
    schedule.process_selector = Some(ProcessSelector {
        pid: None,
        name: Some("   ".to_string()),
        executable: None,
        cmdline_contains: None,
    });
    store.active = Some(schedule);

    let request = plan_process_scan(&store);
    let scan = match request {
        ScanRequest::Invalid { schedule_id, status, reason } => {
            assert!(reason.contains("NO_FAIL_OPEN_PROCESS_EXIT"));
            ScanOutcome::Invalid { schedule_id, status, reason }
        }
        other => panic!("expected an invalid-selector plan, got {:?}", other),
    };

    let effects = tick_schedule(&mut store, 5_000, &scan, &no_tz());
    assert!(effects.changed);
    assert!(store.active.is_none());
    assert!(effects.should_execute.is_none());
    let failed = store.history.last().unwrap();
    assert_eq!(failed.event_type, "failed");
    assert!(failed.reason.as_deref().unwrap_or_default().contains("NO_FAIL_OPEN_PROCESS_EXIT"));
    assert!(effects.notifications.iter().any(|body| body.contains("안전 중단")));
}

#[test]
fn stale_scan_is_never_applied() {
    let mut store = SchedulerStore::default();
    store.active = Some(sample_process_schedule());

    tick_schedule(&mut store, 0, &absent_scan("sch-other", ScheduleStatus::Armed), &no_tz());
    assert_eq!(store.active.as_ref().unwrap().process_missing_since_ms, None);

    tick_schedule(&mut store, 0, &absent_scan("sch-watch", ScheduleStatus::FinalWarning), &no_tz());
    assert_eq!(store.active.as_ref().unwrap().process_missing_since_ms, None);
}

#[test]
fn ticking_a_committed_schedule_changes_nothing() {
    let mut store = SchedulerStore::default();
    let mut schedule = sample_process_schedule();
    schedule.status = ScheduleStatus::ShuttingDown;
    schedule.shutdown_initiated_at_ms = Some(99_000);
    schedule.final_warning_started_at_ms = Some(10_000);
    store.active = Some(schedule);

    let effects = tick_schedule(&mut store, 200_000, &ScanOutcome::NotRequested, &no_tz());
    let active = store.active.as_ref().unwrap();
    assert_eq!(active.status, ScheduleStatus::ShuttingDown);
    assert_eq!(active.shutdown_initiated_at_ms, Some(99_000));
    assert!(effects.should_execute.is_none());
    assert!(effects.notifications.is_empty());
}

#[test]
fn specific_time_realigns_after_timezone_change() {
    let mut store = SchedulerStore::default();
    let mut schedule = sample_process_schedule();
    schedule.mode = ScheduleMode::SpecificTime;
    schedule.process_selector = None;
    schedule.trigger_at_ms = Some(100_000);
    schedule.target_local_time = Some("09:30".to_string());
    schedule.target_tz_offset_minutes = Some(540);
    store.active = Some(schedule);

    let tz = TzObservation { current_offset_minutes: 0, recomputed_target_ms: Some(40_000) };
    let effects = tick_schedule(&mut store, 1_000, &ScanOutcome::NotRequested, &tz);
    assert!(effects.changed);
    let active = store.active.as_ref().unwrap();
    assert_eq!(active.trigger_at_ms, Some(40_000));
    assert_eq!(active.target_tz_offset_minutes, Some(0));
    assert!(store.history.iter().any(|e| e.event_type == "timezone_realigned"));
}

#[test]
fn plan_process_scan_only_for_armed_or_warning_watchers() {
    let mut store = SchedulerStore::default();
    assert_eq!(plan_process_scan(&store), ScanRequest::NotNeeded);

    store.active = Some(sample_process_schedule());
    match plan_process_scan(&store) {
        ScanRequest::Needed { schedule_id, status, selector, tracked_pids } => {
            assert_eq!(schedule_id, "sch-watch");
            assert_eq!(status, ScheduleStatus::Armed);
            assert_eq!(selector.pid, Some(4242));
            assert!(tracked_pids.is_empty());
        }
        other => panic!("expected a scan plan, got {:?}", other),
    }

    store.active.as_mut().unwrap().status = ScheduleStatus::ShuttingDown;
    assert_eq!(plan_process_scan(&store), ScanRequest::NotNeeded);
}

#[test]
fn quit_guard_policy_blocks_only_armed_and_final_warning() {
    assert!(is_quit_guard_status(&ScheduleStatus::Armed));
    assert!(is_quit_guard_status(&ScheduleStatus::FinalWarning));
    assert!(!is_quit_guard_status(&ScheduleStatus::ShuttingDown));
}

#[test]
fn quit_guard_cancel_and_quit_cancels_active_and_requests_exit() {
    let mut store = SchedulerStore::default();
    let mut active = sample_process_schedule();
    active.status = ScheduleStatus::Armed;
    let schedule_id = active.id.clone();
    store.active = Some(active);

    let outcome = apply_quit_guard_action(&mut store, QuitGuardAction::CancelAndQuit, 0).unwrap();

    assert_eq!(
        outcome,
        QuitResolutionOutcome {
            should_exit: true,
            should_hide_window: false,
            store_changed: true,
        }
    );
    assert!(store.active.is_none());

    let last_event = store.history.last().expect("cancelled event should be recorded");
    assert_eq!(last_event.event_type, "cancelled");
    assert_eq!(last_event.result, "ok");
    assert_eq!(last_event.schedule_id.as_deref(), Some(schedule_id.as_str()));
}

#[test]
fn quit_guard_keep_background_preserves_active_schedule() {
    let mut store = SchedulerStore::default();
    let mut active = sample_process_schedule();
    active.status = ScheduleStatus::Armed;
    let schedule_id = active.id.clone();
    store.active = Some(active);

    let outcome = apply_quit_guard_action(&mut store, QuitGuardAction::KeepBackground, 0).unwrap();
    assert_eq!(
        outcome,
        QuitResolutionOutcome {
            should_exit: false,
            should_hide_window: true,
            store_changed: false,
        }
    );
    assert_eq!(
        store.active.as_ref().map(|active| active.id.as_str()),
        Some(schedule_id.as_str())
    );
    assert!(store.history.is_empty());
}

#[test]
fn quit_guard_return_keeps_state_unchanged() {
    let mut store = SchedulerStore::default();
    let mut active = sample_process_schedule();
    active.status = ScheduleStatus::Armed;
    let schedule_id = active.id.clone();
    store.active = Some(active);

    let outcome = apply_quit_guard_action(&mut store, QuitGuardAction::Return, 0).unwrap();
    assert_eq!(
        outcome,
        QuitResolutionOutcome {
            should_exit: false,
            should_hide_window: false,
            store_changed: false,
        }
    );
    assert_eq!(
        store.active.as_ref().map(|active| active.id.as_str()),
        Some(schedule_id.as_str())
    );
    assert!(store.history.is_empty());
}

#[test]
fn quit_guard_refuses_to_cancel_a_committed_schedule() {
    let mut store = SchedulerStore::default();
    let mut active = sample_process_schedule();
    active.status = ScheduleStatus::ShuttingDown;
    active.shutdown_initiated_at_ms = Some(1);
    store.active = Some(active);

    let err = apply_quit_guard_action(&mut store, QuitGuardAction::CancelAndQuit, 0).unwrap_err();
    assert_eq!(err, "shutdown has already started; cannot cancel");
    assert!(store.active.is_some());
}

#[test]
fn quit_guard_status_and_exit_once_flag() {
    let mut store = SchedulerStore::default();
    assert_eq!(active_status_requiring_quit_guard(&store), None);
    store.active = Some(sample_process_schedule());
    assert_eq!(active_status_requiring_quit_guard(&store), Some(ScheduleStatus::Armed));
    store.active.as_mut().unwrap().status = ScheduleStatus::ShuttingDown;
    assert_eq!(active_status_requiring_quit_guard(&store), None);

    let mut runtime = RuntimeState::default();
    assert!(!consume_allow_exit_once(&mut runtime));
    set_allow_exit_once(&mut runtime, true);
    assert!(consume_allow_exit_once(&mut runtime));
    assert!(!consume_allow_exit_once(&mut runtime));
}

#[test]
fn tray_message_reflects_schedule_state() {
    assert_eq!(tray_status_message(None, 0, ""), "활성 스케줄 없음");

    let mut schedule = sample_process_schedule();
    schedule.status = ScheduleStatus::ShuttingDown;
    assert_eq!(tray_status_message(Some(&schedule), 0, ""), "종료 명령 실행 중");

    schedule.status = ScheduleStatus::Armed;
    schedule.shutdown_at_ms = Some(61_000);
    assert_eq!(
        tray_status_message(Some(&schedule), 1_000, "2026-01-01 09:00:00"),
        "종료 예정 2026-01-01 09:00:00 · 60초 남음"
    );

    schedule.shutdown_at_ms = None;
    schedule.trigger_at_ms = Some(31_000);
    assert_eq!(tray_status_message(Some(&schedule), 1_000, ""), "자동 종료 대기 중 · 30초 남음");

    schedule.trigger_at_ms = None;
    assert_eq!(
        tray_status_message(Some(&schedule), 1_000, ""),
        "자동 종료 대기 중 · 프로세스 종료 감시"
    );
}
