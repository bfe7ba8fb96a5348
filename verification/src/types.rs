//! The scheduler's data model: modes, statuses, the active schedule, the
//! execution-history events, settings, and the persisted snapshot of all of
//! them, together with spec-level equality over their views.
use vstd::prelude::*;

verus! {

/// How the shutdown moment is determined.
#[derive(Debug, Clone, Copy, PartialEq, Eq, Structural)]
pub enum ScheduleMode {
    Countdown,
    SpecificTime,
    ProcessExit,
}

/// Where the active schedule stands. `ShuttingDown` is transient and
/// in-memory only: sanitization downgrades it to `FinalWarning` whenever a
/// schedule crosses the persistence boundary.
#[derive(Debug, Clone, Copy, PartialEq, Eq, Structural)]
pub enum ScheduleStatus {
    Armed,
    FinalWarning,
    ShuttingDown,
}

/// Criteria identifying the watched process for `ProcessExit` schedules.
#[derive(Debug, Clone, PartialEq, Eq)]
pub struct ProcessSelector {
    pub pid: Option<u32>,
    pub name: Option<String>,
    pub executable: Option<String>,
    pub cmdline_contains: Option<String>,
}

/// A request to arm a schedule, as the caller hands it in.
#[derive(Debug, Clone, PartialEq, Eq)]
pub struct ScheduleRequest {
    pub mode: ScheduleMode,
    pub duration_sec: Option<u64>,
    pub target_local_time: Option<String>,
    pub process_selector: Option<ProcessSelector>,
    pub pre_alerts: Option<Vec<u64>>,
    pub process_stable_sec: Option<u64>,
}

/// The single active schedule and all of its state-machine fields.
#[derive(Debug, Clone, PartialEq, Eq)]
pub struct ActiveSchedule {
    pub id: String,
    pub mode: ScheduleMode,
    pub summary: String,
    pub armed_at_ms: i64,
    pub trigger_at_ms: Option<i64>,
    pub target_local_time: Option<String>,
    pub target_tz_offset_minutes: Option<i32>,
    pub pre_alerts: Vec<u64>,
    pub fired_alerts: Vec<u64>,
    pub process_selector: Option<ProcessSelector>,
    pub process_tree_pids: Vec<u32>,
    pub process_stable_sec: u64,
    pub process_missing_since_ms: Option<i64>,
    pub snooze_until_ms: Option<i64>,
    pub process_match_degraded_logged: bool,
    pub status: ScheduleStatus,
    pub final_warning_started_at_ms: Option<i64>,
    pub final_warning_duration_sec: u64,
    pub shutdown_at_ms: Option<i64>,
    pub shutdown_initiated_at_ms: Option<i64>,
}

/// One entry of the execution history.
#[derive(Debug, Clone, PartialEq, Eq)]
pub struct ExecutionEvent {
    pub schedule_id: Option<String>,
    pub event_type: String,
    pub timestamp_ms: i64,
    pub result: String,
    pub reason: Option<String>,
}

/// User settings that outlive any single schedule.
#[derive(Debug, Clone, PartialEq, Eq)]
pub struct AppSettings {
    pub default_pre_alerts: Vec<u64>,
    pub final_warning_sec: u64,
    pub simulate_only: bool,
}

/// A partial settings change; absent fields stay as they are.
#[derive(Debug, Clone, PartialEq, Eq)]
pub struct SettingsUpdate {
    pub default_pre_alerts: Option<Vec<u64>>,
    pub final_warning_sec: Option<u64>,
    pub simulate_only: Option<bool>,
}

/// What is written to and read from disk, versioned.
#[derive(Debug, Clone, PartialEq, Eq)]
pub struct PersistedState {
    pub version: u8,
    pub settings: AppSettings,
    pub history: Vec<ExecutionEvent>,
    pub active: Option<ActiveSchedule>,
    pub id_seq: u64,
    pub last_schedule_request: Option<ScheduleRequest>,
}

/// The in-memory store the engine mutates: settings, history, at most one
/// active schedule, and the id sequence.
#[derive(Debug, Clone, PartialEq, Eq)]
pub struct SchedulerStore {
    pub settings: AppSettings,
    pub history: Vec<ExecutionEvent>,
    pub active: Option<ActiveSchedule>,
    pub id_seq: u64,
    pub last_schedule_request: Option<ScheduleRequest>,
}

/// Flags that live only for the current process, never persisted.
#[derive(Debug, Clone, Copy, PartialEq, Eq, Structural)]
pub struct RuntimeState {
    pub allow_exit_once: bool,
}

/// A read-only view of the store handed to the UI layer.
#[derive(Debug, Clone, PartialEq, Eq)]
pub struct SchedulerSnapshot {
    pub active: Option<ActiveSchedule>,
    pub settings: AppSettings,
    pub history: Vec<ExecutionEvent>,
    pub now_ms: i64,
}

/// One row of the process list shown when picking a watch target.
#[derive(Debug, Clone, PartialEq, Eq)]
pub struct ProcessInfo {
    pub pid: u32,
    pub name: String,
    pub executable: Option<String>,
}

impl Default for RuntimeState {
    fn default() -> (r: RuntimeState)
        ensures
            !r.allow_exit_once,
    {
        RuntimeState { allow_exit_once: false }
    }
}

/// The view of an optional string: its characters, when present.
pub open spec fn opt_str_view(o: Option<String>) -> Option<Seq<char>> {
    match o {
        Some(s) => Some(s@),
        None => None,
    }
}

/// Selector equality over views.
pub open spec fn selector_eq(a: ProcessSelector, b: ProcessSelector) -> bool {
    &&& a.pid == b.pid
    &&& opt_str_view(a.name) == opt_str_view(b.name)
    &&& opt_str_view(a.executable) == opt_str_view(b.executable)
    &&& opt_str_view(a.cmdline_contains) == opt_str_view(b.cmdline_contains)
}

pub open spec fn opt_selector_eq(a: Option<ProcessSelector>, b: Option<ProcessSelector>) -> bool {
    match (a, b) {
        (Some(x), Some(y)) => selector_eq(x, y),
        (None, None) => true,
        _ => false,
    }
}

/// Request equality over views.
pub open spec fn request_eq(a: ScheduleRequest, b: ScheduleRequest) -> bool {
    &&& a.mode == b.mode
    &&& a.duration_sec == b.duration_sec
    &&& opt_str_view(a.target_local_time) == opt_str_view(b.target_local_time)
    &&& opt_selector_eq(a.process_selector, b.process_selector)
    &&& match (a.pre_alerts, b.pre_alerts) {
        (Some(x), Some(y)) => x@ == y@,
        (None, None) => true,
        _ => false,
    }
    &&& a.process_stable_sec == b.process_stable_sec
}

pub open spec fn opt_request_eq(a: Option<ScheduleRequest>, b: Option<ScheduleRequest>) -> bool {
    match (a, b) {
        (Some(x), Some(y)) => request_eq(x, y),
        (None, None) => true,
        _ => false,
    }
}

/// Schedule equality over views: every field, strings and vectors compared
/// by their contents.
pub open spec fn schedule_eq(a: ActiveSchedule, b: ActiveSchedule) -> bool {
    &&& a.id@ == b.id@
    &&& a.mode == b.mode
    &&& a.summary@ == b.summary@
    &&& a.armed_at_ms == b.armed_at_ms
    &&& a.trigger_at_ms == b.trigger_at_ms
    &&& opt_str_view(a.target_local_time) == opt_str_view(b.target_local_time)
    &&& a.target_tz_offset_minutes == b.target_tz_offset_minutes
    &&& a.pre_alerts@ == b.pre_alerts@
    &&& a.fired_alerts@ == b.fired_alerts@
    &&& opt_selector_eq(a.process_selector, b.process_selector)
    &&& a.process_tree_pids@ == b.process_tree_pids@
    &&& a.process_stable_sec == b.process_stable_sec
    &&& a.process_missing_since_ms == b.process_missing_since_ms
    &&& a.snooze_until_ms == b.snooze_until_ms
    &&& a.process_match_degraded_logged == b.process_match_degraded_logged
    &&& a.status == b.status
    &&& a.final_warning_started_at_ms == b.final_warning_started_at_ms
    &&& a.final_warning_duration_sec == b.final_warning_duration_sec
    &&& a.shutdown_at_ms == b.shutdown_at_ms
    &&& a.shutdown_initiated_at_ms == b.shutdown_initiated_at_ms
}

pub open spec fn opt_schedule_eq(a: Option<ActiveSchedule>, b: Option<ActiveSchedule>) -> bool {
    match (a, b) {
        (Some(x), Some(y)) => schedule_eq(x, y),
        (None, None) => true,
        _ => false,
    }
}

/// Event equality over views.
pub open spec fn event_eq(a: ExecutionEvent, b: ExecutionEvent) -> bool {
    &&& opt_str_view(a.schedule_id) == opt_str_view(b.schedule_id)
    &&& a.event_type@ == b.event_type@
    &&& a.timestamp_ms == b.timestamp_ms
    &&& a.result@ == b.result@
    &&& opt_str_view(a.reason) == opt_str_view(b.reason)
}

/// History equality: same length, events equal index by index.
pub open spec fn history_eq(a: Seq<ExecutionEvent>, b: Seq<ExecutionEvent>) -> bool {
    a.len() == b.len() && forall|i: int| 0 <= i < a.len() ==> event_eq(#[trigger] a[i], b[i])
}

/// Settings equality over views.
pub open spec fn settings_eq(a: AppSettings, b: AppSettings) -> bool {
    &&& a.default_pre_alerts@ == b.default_pre_alerts@
    &&& a.final_warning_sec == b.final_warning_sec
    &&& a.simulate_only == b.simulate_only
}

/// Store equality over views: the semantic content of the store.
pub open spec fn store_eq(a: SchedulerStore, b: SchedulerStore) -> bool {
    &&& settings_eq(a.settings, b.settings)
    &&& history_eq(a.history@, b.history@)
    &&& opt_schedule_eq(a.active, b.active)
    &&& a.id_seq == b.id_seq
    &&& opt_request_eq(a.last_schedule_request, b.last_schedule_request)
}

} // verus!
