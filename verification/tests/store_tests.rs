use autosd::history::push_event;
use autosd::paths::backup_state_path;
use autosd::paths::next_corrupt_state_path;
use autosd::paths::state_companion_path;
use autosd::settings::normalize_alerts;
use autosd::settings::normalize_final_warning_sec;
use autosd::settings::validate_final_warning_sec;
use autosd::store::LoadStoreOutcome;
use autosd::store::StateFileRead;
use autosd::store::apply_process_exit_fail_safe_cancel;
use autosd::store::enforce_no_resume_in_mvp;
use autosd::store::load_store;
use autosd::store::lock_store;
use autosd::selector::no_fail_open_process_exit_reason;
use autosd::types::ActiveSchedule;
use autosd::types::PersistedState;
use autosd::types::ScheduleMode;
use autosd::types::ScheduleStatus;
use autosd::types::SchedulerStore;

fn sample_final_warning_schedule() -> ActiveSchedule {
    ActiveSchedule {
        id: "sch-test".to_string(),
        mode: ScheduleMode::Countdown,
        summary: "test".to_string(),
        armed_at_ms: 0,
        trigger_at_ms: Some(0),
        target_local_time: None,
        target_tz_offset_minutes: None,
        pre_alerts: vec![600, 300, 60],
        fired_alerts: vec![600, 300, 60],
        process_selector: None,
        process_tree_pids: Vec::new(),
        process_stable_sec: 10,
        process_missing_since_ms: None,
        snooze_until_ms: None,
        process_match_degraded_logged: false,
        status: ScheduleStatus::FinalWarning,
        final_warning_started_at_ms: Some(1_000),
        final_warning_duration_sec: 60,
        shutdown_at_ms: Some(61_000),
        shutdown_initiated_at_ms: None,
    }
}

#[test]
fn no_resume_policy_clears_persisted_active_schedule() {
    let mut store = SchedulerStore::default();
    let active = sample_final_warning_schedule();
    let schedule_id = active.id.clone();
    store.active = Some(active);

    assert!(enforce_no_resume_in_mvp(&mut store, 0));
    assert!(store.active.is_none());

    let last_event = store.history.last().expect("startup event should be recorded");
    assert_eq!(last_event.event_type, "resume_not_supported");
    assert_eq!(last_event.result, "ok");
    assert_eq!(last_event.schedule_id.as_deref(), Some(schedule_id.as_str()));
}

#[test]
fn no_resume_policy_is_noop_without_active_schedule() {
    let mut store = SchedulerStore::default();

    assert!(!enforce_no_resume_in_mvp(&mut store, 0));
    assert!(store.history.is_empty());
    assert!(store.active.is_none());
}

#[test]
fn final_warning_policy_validates_range_and_recovers_defaults() {
    assert_eq!(normalize_final_warning_sec(60), 60);
    assert_eq!(normalize_final_warning_sec(14), 60);
    assert_eq!(normalize_final_warning_sec(301), 60);

    assert_eq!(validate_final_warning_sec(15).unwrap(), 15);
    assert_eq!(validate_final_warning_sec(300).unwrap(), 300);
    assert_eq!(
        validate_final_warning_sec(14).unwrap_err(),
        "최종 경고 시간은 15초에서 300초 사이로 설정해 주세요."
    );
    assert_eq!(
        validate_final_warning_sec(301).unwrap_err(),
        "최종 경고 시간은 15초에서 300초 사이로 설정해 주세요."
    );
}

#[test]
fn process_exit_fail_safe_cancels_active_and_records_failed_event() {
    let mut store = SchedulerStore::default();
    let mut active = sample_final_warning_schedule();
    active.mode = ScheduleMode::ProcessExit;
    let schedule_id = active.id.clone();
    store.active = Some(active);

    apply_process_exit_fail_safe_cancel(
        &mut store,
        &schedule_id,
        no_fail_open_process_exit_reason("process selector is missing"),
        0,
    );

    assert!(store.active.is_none());
    let last_event = store.history.last().expect("failed event should be recorded");
    assert_eq!(last_event.event_type, "failed");
    assert_eq!(last_event.result, "error");
    assert!(
        last_event
            .reason
            .as_deref()
            .unwrap_or_default()
            .contains("NO_FAIL_OPEN_PROCESS_EXIT")
    );
}

#[test]
fn normalize_alerts_sorts_dedupes_and_defaults() {
    assert_eq!(normalize_alerts(&vec![60, 300, 60, 600, 0, 90_000]), vec![600, 300, 60]);
    assert_eq!(normalize_alerts(&vec![]), vec![600, 300, 60]);
    assert_eq!(normalize_alerts(&vec![0, 90_000]), vec![600, 300, 60]);
    assert_eq!(normalize_alerts(&vec![5, 86_400]), vec![86_400, 5]);
    let once = normalize_alerts(&vec![9, 1, 9, 4]);
    assert_eq!(normalize_alerts(&once), once);
}

#[test]
fn history_is_capped_and_drops_oldest_first() {
    let mut store = SchedulerStore::default();
    let mut i: i64 = 0;
    while i < 260 {
        push_event(&mut store, None, "armed", i, "ok", None);
        i += 1;
    }
    assert_eq!(store.history.len(), 250);
    assert_eq!(store.history[0].timestamp_ms, 10);
    assert_eq!(store.history[249].timestamp_ms, 259);
}

#[test]
fn persisted_state_never_contains_internal_shutting_down_status() {
    let mut store = SchedulerStore::default();
    let mut active = sample_final_warning_schedule();
    active.status = ScheduleStatus::ShuttingDown;
    active.shutdown_initiated_at_ms = Some(61_000);
    store.active = Some(active);

    let persisted = store.to_persisted();
    let on_disk = persisted.active.as_ref().unwrap();
    assert_eq!(on_disk.status, ScheduleStatus::FinalWarning);
    assert_eq!(on_disk.shutdown_initiated_at_ms, None);
}

#[test]
fn persist_round_trip_keeps_store_except_downgrade() {
    let mut store = SchedulerStore::default();
    let mut active = sample_final_warning_schedule();
    active.status = ScheduleStatus::Armed;
    active.trigger_at_ms = Some(10_000);
    active.shutdown_at_ms = Some(70_000);
    store.active = Some(active);
    store.id_seq = 9;
    push_event(&mut store, None, "armed", 5, "ok", Some("summary".to_string()));

    let reloaded = SchedulerStore::from_persisted(store.to_persisted());
    assert_eq!(reloaded, store);
}

#[test]
fn load_store_missing_file_starts_fresh() {
    let outcome = load_store(
        StateFileRead::Missing,
        "state.json.corrupt-0",
        Ok(()),
        StateFileRead::Missing,
        "state.json.bak",
        0,
    )
    .unwrap();
    assert!(!outcome.needs_persist);
    assert!(outcome.startup_notice.is_none());
    assert!(outcome.store.history.is_empty());
    assert!(outcome.store.active.is_none());
}

#[test]
fn load_store_quarantines_corrupt_file_and_recovers_from_backup() {
    let mut backup_store = SchedulerStore::default();
    backup_store.id_seq = 77;
    let backup = backup_store.to_persisted();

    let outcome: LoadStoreOutcome = load_store(
        StateFileRead::Corrupt("expected value at line 1 column 1".to_string()),
        "state.json.corrupt-123",
        Ok(()),
        StateFileRead::Parsed(backup),
        "state.json.bak",
        123,
    )
    .expect("load should recover from backup");

    assert!(outcome.needs_persist, "recovered state should be persisted");
    assert_eq!(outcome.store.id_seq, 77);
    assert!(
        outcome
            .store
            .history
            .iter()
            .any(|item| item.event_type == "state_parse_failed" && item.result == "error")
    );
    assert!(
        outcome
            .store
            .history
            .iter()
            .any(|item| item.event_type == "state_restored_from_backup" && item.result == "ok")
    );
    assert!(outcome.startup_notice.as_deref().unwrap_or_default().contains("백업"));
    assert!(
        outcome
            .store
            .history
            .iter()
            .any(|item| item
                .reason
                .as_deref()
                .unwrap_or_default()
                .contains("quarantined at state.json.corrupt-123"))
    );
}

#[test]
fn load_store_quarantines_corrupt_file_without_backup() {
    let outcome = load_store(
        StateFileRead::Corrupt("expected value at line 1 column 1".to_string()),
        "state.json.corrupt-123",
        Ok(()),
        StateFileRead::Missing,
        "state.json.bak",
        123,
    )
    .expect("load should fall back to default state");

    assert!(outcome.needs_persist, "fallback state should be persisted");
    assert!(outcome.store.active.is_none());
    assert_eq!(outcome.store.id_seq, 0);
    assert!(
        outcome
            .store
            .history
            .iter()
            .any(|item| item.event_type == "state_parse_failed" && item.result == "error")
    );
    assert!(
        outcome
            .store
            .history
            .iter()
            .all(|item| item.event_type != "state_restored_from_backup")
    );
    assert!(outcome.startup_notice.as_deref().unwrap_or_default().contains("기본 상태"));
}

#[test]
fn load_store_reports_quarantine_and_read_failures() {
    let err = load_store(
        StateFileRead::Unreadable("permission denied".to_string()),
        "state.json.corrupt-0",
        Ok(()),
        StateFileRead::Missing,
        "state.json.bak",
        0,
    )
    .unwrap_err();
    assert_eq!(err, "failed to read state file: permission denied");

    let err = load_store(
        StateFileRead::Corrupt("bad".to_string()),
        "state.json.corrupt-9",
        Err("device busy".to_string()),
        StateFileRead::Missing,
        "state.json.bak",
        0,
    )
    .unwrap_err();
    assert_eq!(
        err,
        "failed to quarantine corrupted state file to state.json.corrupt-9: device busy"
    );
}

#[test]
fn load_normalizes_settings_and_sanitizes_active() {
    let mut persisted = PersistedState::default();
    persisted.settings.default_pre_alerts = vec![0, 60, 60, 600];
    persisted.settings.final_warning_sec = 10_000;
    let mut active = sample_final_warning_schedule();
    active.status = ScheduleStatus::ShuttingDown;
    active.shutdown_initiated_at_ms = Some(42);
    active.final_warning_duration_sec = 7;
    persisted.active = Some(active);

    let store = SchedulerStore::from_persisted(persisted);
    assert_eq!(store.settings.default_pre_alerts, vec![600, 60]);
    assert_eq!(store.settings.final_warning_sec, 60);
    let sanitized = store.active.as_ref().unwrap();
    assert_eq!(sanitized.status, ScheduleStatus::FinalWarning);
    assert_eq!(sanitized.shutdown_initiated_at_ms, None);
    assert_eq!(sanitized.final_warning_duration_sec, 60);
}

#[test]
fn poisoned_lock_recovery_is_logged() {
    let mut store = SchedulerStore::default();
    lock_store(&mut store, false, 1);
    assert!(store.history.is_empty());

    lock_store(&mut store, true, 2);
    let event = store.history.last().unwrap();
    assert_eq!(event.event_type, "mutex_poison_recovered");
    assert_eq!(event.result, "error");
}

#[test]
fn companion_paths_append_suffixes() {
    assert_eq!(state_companion_path("dir/state.json", ".tmp"), "dir/state.json.tmp");
    assert_eq!(backup_state_path("dir/state.json"), "dir/state.json.bak");
    assert_eq!(
        next_corrupt_state_path("dir/state.json", 1_234, 0),
        "dir/state.json.corrupt-1234"
    );
    assert_eq!(
        next_corrupt_state_path("dir/state.json", 1_234, 2),
        "dir/state.json.corrupt-1234-2"
    );
}

#[test]
fn wall_clock_targets_parse_and_resolve() {
    let err = autosd::time::compute_next_local_target_ms("nonsense", 0).unwrap_err();
    assert_eq!(err, "target time must match HH:MM format");
    let target = autosd::time::compute_next_local_target_ms("07:30", 0).unwrap();
    assert!(target > 0);
}

#[test]
fn clock_reads_are_nonnegative() {
    assert!(autosd::time::now_ms() >= 0);
    let offset = autosd::time::current_utc_offset_minutes();
    assert!(-1440 < offset && offset < 1440);
}

#[test]
fn next_target_prefers_today_then_rolls_to_tomorrow() {
    assert_eq!(autosd::time::pick_next_target(Some(5_000), None, 1_000), Ok(5_000));
    assert_eq!(
        autosd::time::pick_next_target(Some(5_000), Some(91_400_000), 5_000),
        Ok(91_400_000)
    );
    assert_eq!(
        autosd::time::pick_next_target(Some(5_000), None, 5_000).unwrap_err(),
        "unable to resolve next local target time"
    );
    assert_eq!(
        autosd::time::pick_next_target(None, Some(91_400_000), 1_000).unwrap_err(),
        "unable to resolve local target time"
    );
}
