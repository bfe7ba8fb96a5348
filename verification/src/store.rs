//! The store around the persistence boundary: turning a persisted snapshot
//! into the in-memory store (normalizing and distrusting what must not be
//! trusted), turning the store back into a snapshot, the lock-poison
//! recovery record, and the no-resume startup policy.
use vstd::prelude::*;
use vstd::string::StringExecFns;
use crate::history::push_event;
use crate::history::spec_event;
use crate::history::spec_history_after_push;
use crate::schedule::sanitize_active_for_persist;
use crate::schedule::sanitize_active_from_persist;
use crate::schedule::spec_sanitize_for_persist;
use crate::schedule::spec_sanitize_from_persist;
use crate::settings::FINAL_WARNING_DEFAULT_SEC;
use crate::settings::normalize_alerts;
use crate::settings::normalize_final_warning_sec;
use crate::settings::spec_default_alerts;
use crate::settings::spec_is_normalized_alerts;
use crate::settings::spec_normalize_final_warning_sec;
use crate::text::str_eq;
use crate::types::ActiveSchedule;
use crate::types::AppSettings;
use crate::types::ExecutionEvent;
use crate::types::PersistedState;
use crate::types::ProcessSelector;
use crate::types::ScheduleRequest;
use crate::types::SchedulerStore;
use crate::types::RuntimeState;
use crate::types::opt_request_eq;
use crate::types::request_eq;
use crate::types::schedule_eq;
use crate::types::settings_eq;

verus! {

/// Copy a vector of plain numbers.
pub fn copy_u64_vec(v: &Vec<u64>) -> (r: Vec<u64>)
    ensures
        r@ == v@,
{
    let mut out: Vec<u64> = Vec::new();
    let mut i: usize = 0;
    while i < v.len()
        invariant
            0 <= i <= v.len(),
            out@ =~= v@.subrange(0, i as int),
        decreases v.len() - i,
    {
        out.push(v[i]);
        i += 1;
    }
    proof {
        assert(out@ =~= v@);
    }
    out
}

/// Copy a vector of plain numbers.
pub fn copy_u32_vec(v: &Vec<u32>) -> (r: Vec<u32>)
    ensures
        r@ == v@,
{
    let mut out: Vec<u32> = Vec::new();
    let mut i: usize = 0;
    while i < v.len()
        invariant
            0 <= i <= v.len(),
            out@ =~= v@.subrange(0, i as int),
        decreases v.len() - i,
    {
        out.push(v[i]);
        i += 1;
    }
    proof {
        assert(out@ =~= v@);
    }
    out
}

/// Copy an optional string, keeping its characters.
pub fn clone_opt_string(o: &Option<String>) -> (r: Option<String>)
    ensures
        r == *o,
{
    match o {
        Some(s) => Some(s.clone()),
        None => None,
    }
}

/// Copy an event; every field keeps its value.
pub fn clone_event(e: &ExecutionEvent) -> (r: ExecutionEvent)
    ensures
        r == *e,
{
    ExecutionEvent {
        schedule_id: clone_opt_string(&e.schedule_id),
        event_type: e.event_type.clone(),
        timestamp_ms: e.timestamp_ms,
        result: e.result.clone(),
        reason: clone_opt_string(&e.reason),
    }
}

/// Copy a history, entry by entry.
pub fn clone_history(v: &Vec<ExecutionEvent>) -> (r: Vec<ExecutionEvent>)
    ensures
        r@ == v@,
{
    let mut out: Vec<ExecutionEvent> = Vec::new();
    let mut i: usize = 0;
    while i < v.len()
        invariant
            0 <= i <= v.len(),
            out@ =~= v@.subrange(0, i as int),
        decreases v.len() - i,
    {
        out.push(clone_event(&v[i]));
        i += 1;
    }
    proof {
        assert(out@ =~= v@);
    }
    out
}

/// Copy a selector; every field keeps its value.
pub fn clone_selector(s: &ProcessSelector) -> (r: ProcessSelector)
    ensures
        r == *s,
{
    ProcessSelector {
        pid: s.pid,
        name: clone_opt_string(&s.name),
        executable: clone_opt_string(&s.executable),
        cmdline_contains: clone_opt_string(&s.cmdline_contains),
    }
}

pub fn clone_opt_selector(s: &Option<ProcessSelector>) -> (r: Option<ProcessSelector>)
    ensures
        r == *s,
{
    match s {
        Some(x) => Some(clone_selector(x)),
        None => None,
    }
}

/// Copy settings; the pre-alert list keeps its contents.
pub fn clone_settings(s: &AppSettings) -> (r: AppSettings)
    ensures
        settings_eq(r, *s),
{
    AppSettings {
        default_pre_alerts: copy_u64_vec(&s.default_pre_alerts),
        final_warning_sec: s.final_warning_sec,
        simulate_only: s.simulate_only,
    }
}

/// Copy a request; every field keeps its contents.
pub fn clone_request(s: &ScheduleRequest) -> (r: ScheduleRequest)
    ensures
        request_eq(r, *s),
{
    ScheduleRequest {
        mode: s.mode,
        duration_sec: s.duration_sec,
        target_local_time: clone_opt_string(&s.target_local_time),
        process_selector: clone_opt_selector(&s.process_selector),
        pre_alerts: match &s.pre_alerts {
            Some(v) => Some(copy_u64_vec(v)),
            None => None,
        },
        process_stable_sec: s.process_stable_sec,
    }
}

pub fn clone_opt_request(s: &Option<ScheduleRequest>) -> (r: Option<ScheduleRequest>)
    ensures
        opt_request_eq(r, *s),
{
    match s {
        Some(x) => Some(clone_request(x)),
        None => None,
    }
}

/// Copy a schedule; every field keeps its contents.
pub fn clone_schedule(a: &ActiveSchedule) -> (r: ActiveSchedule)
    ensures
        schedule_eq(r, *a),
{
    ActiveSchedule {
        id: a.id.clone(),
        mode: a.mode,
        summary: a.summary.clone(),
        armed_at_ms: a.armed_at_ms,
        trigger_at_ms: a.trigger_at_ms,
        target_local_time: clone_opt_string(&a.target_local_time),
        target_tz_offset_minutes: a.target_tz_offset_minutes,
        pre_alerts: copy_u64_vec(&a.pre_alerts),
        fired_alerts: copy_u64_vec(&a.fired_alerts),
        process_selector: clone_opt_selector(&a.process_selector),
        process_tree_pids: copy_u32_vec(&a.process_tree_pids),
        process_stable_sec: a.process_stable_sec,
        process_missing_since_ms: a.process_missing_since_ms,
        snooze_until_ms: a.snooze_until_ms,
        process_match_degraded_logged: a.process_match_degraded_logged,
        status: a.status,
        final_warning_started_at_ms: a.final_warning_started_at_ms,
        final_warning_duration_sec: a.final_warning_duration_sec,
        shutdown_at_ms: a.shutdown_at_ms,
        shutdown_initiated_at_ms: a.shutdown_initiated_at_ms,
    }
}

/// Copy a whole store; the semantic content is kept.
pub fn clone_store(s: &SchedulerStore) -> (r: SchedulerStore)
    ensures
        crate::types::store_eq(r, *s),
{
    SchedulerStore {
        settings: clone_settings(&s.settings),
        history: clone_history(&s.history),
        active: match &s.active {
            Some(a) => Some(clone_schedule(a)),
            None => None,
        },
        id_seq: s.id_seq,
        last_schedule_request: clone_opt_request(&s.last_schedule_request),
    }
}

/// How the in-memory store relates to the persisted snapshot it was adopted
/// from: settings normalized, the active schedule sanitized with the
/// normalized final-warning fallback, everything else carried over.
pub open spec fn spec_store_core_from_persisted(p: PersistedState, s: SchedulerStore) -> bool {
    &&& spec_is_normalized_alerts(p.settings.default_pre_alerts@, s.settings.default_pre_alerts@)
    &&& s.settings.final_warning_sec == spec_normalize_final_warning_sec(
        p.settings.final_warning_sec,
    )
    &&& s.settings.simulate_only == p.settings.simulate_only
    &&& match p.active {
        None => s.active is None,
        Some(a) => s.active matches Some(b) && b == spec_sanitize_from_persist(
            a,
            spec_normalize_final_warning_sec(p.settings.final_warning_sec),
        ),
    }
    &&& s.id_seq == p.id_seq
    &&& s.last_schedule_request == p.last_schedule_request
}

pub open spec fn spec_store_from_persisted(p: PersistedState, s: SchedulerStore) -> bool {
    &&& spec_store_core_from_persisted(p, s)
    &&& s.history@ == p.history@
}

/// How the persisted snapshot relates to the store it was taken from:
/// version 1, the active schedule sanitized for disk, everything else a
/// faithful copy.
pub open spec fn spec_persisted_from_store(s: SchedulerStore, p: PersistedState) -> bool {
    &&& p.version == 1
    &&& settings_eq(p.settings, s.settings)
    &&& p.history@ == s.history@
    &&& match s.active {
        None => p.active is None,
        Some(a) => p.active matches Some(b) && schedule_eq(b, spec_sanitize_for_persist(a)),
    }
    &&& p.id_seq == s.id_seq
    &&& opt_request_eq(p.last_schedule_request, s.last_schedule_request)
}

/// A store with nothing in it but default settings.
pub open spec fn spec_store_is_fresh(s: SchedulerStore) -> bool {
    &&& s.settings.default_pre_alerts@ == spec_default_alerts()
    &&& s.settings.final_warning_sec == FINAL_WARNING_DEFAULT_SEC
    &&& !s.settings.simulate_only
    &&& s.history@.len() == 0
    &&& s.active is None
    &&& s.id_seq == 0
    &&& s.last_schedule_request is None
}

impl SchedulerStore {
    /// Adopt a persisted snapshot: normalize the settings, sanitize any
    /// persisted active schedule, and carry the rest over unchanged.
    pub fn from_persisted(persisted: PersistedState) -> (r: SchedulerStore)
        ensures
            spec_store_from_persisted(persisted, r),
    {
        let PersistedState { version: _, settings, history, active, id_seq, last_schedule_request } =
            persisted;
        let normalized = AppSettings {
            default_pre_alerts: normalize_alerts(&settings.default_pre_alerts),
            final_warning_sec: normalize_final_warning_sec(settings.final_warning_sec),
            simulate_only: settings.simulate_only,
        };
        let fallback = normalized.final_warning_sec;
        let sanitized_active = match active {
            Some(a) => Some(sanitize_active_from_persist(a, fallback)),
            None => None,
        };
        SchedulerStore {
            settings: normalized,
            history,
            active: sanitized_active,
            id_seq,
            last_schedule_request,
        }
    }

    /// Take the persisted snapshot of this store: the active schedule is
    /// sanitized so the on-disk form never claims a shutdown is mid-flight.
    pub fn to_persisted(&self) -> (r: PersistedState)
        ensures
            spec_persisted_from_store(*self, r),
    {
        let active = match &self.active {
            Some(a) => {
                let copied = clone_schedule(a);
                proof {
                    assert(schedule_eq(
                        spec_sanitize_for_persist(copied),
                        spec_sanitize_for_persist(*a),
                    ));
                }
                Some(sanitize_active_for_persist(copied))
            },
            None => None,
        };
        PersistedState {
            version: 1,
            settings: clone_settings(&self.settings),
            history: clone_history(&self.history),
            active,
            id_seq: self.id_seq,
            last_schedule_request: clone_opt_request(&self.last_schedule_request),
        }
    }
}

impl Default for SchedulerStore {
    /// The store a first run begins with: default settings and nothing else.
    fn default() -> (r: SchedulerStore)
        ensures
            spec_store_is_fresh(r),
    {
        SchedulerStore {
            settings: AppSettings::default(),
            history: Vec::new(),
            active: None,
            id_seq: 0,
            last_schedule_request: None,
        }
    }
}

/// The record written when the store's lock was found poisoned.
pub open spec fn spec_poison_recovery_reason() -> Seq<char> {
    "scheduler state mutex poisoned; recovered with inner state to keep app running"@
}

/// The recovery decision on acquiring the store: if the previous holder
/// terminated abnormally (the lock was poisoned), keep the inner state and
/// log the degraded recovery rather than propagating the fault. The lock
/// itself lives with the caller; this is the policy applied to what it
/// guards.
pub fn lock_store(store: &mut SchedulerStore, poisoned: bool, now: i64)
    ensures
        !poisoned ==> *final (store) == *old(store),
        poisoned ==> {
            &&& spec_history_after_push(old(store).history@, final (store).history@)
            &&& spec_event(
                None,
                "mutex_poison_recovered"@,
                now,
                "error"@,
                Some(spec_poison_recovery_reason()),
                final (store).history@.last(),
            )
            &&& final (store).settings == old(store).settings
            &&& final (store).active == old(store).active
            &&& final (store).id_seq == old(store).id_seq
            &&& final (store).last_schedule_request == old(store).last_schedule_request
        },
{
    if poisoned {
        push_event(
            store,
            None,
            "mutex_poison_recovered",
            now,
            "error",
            Some(
                String::from_str(
                    "scheduler state mutex poisoned; recovered with inner state to keep app running",
                ),
            ),
        );
    }
}

/// The recovery decision on acquiring the runtime flags: poison leaves no
/// record and the flags stand as they were.
pub fn lock_runtime(runtime: &mut RuntimeState, poisoned: bool)
    ensures
        *final (runtime) == *old(runtime),
{
    let _ = poisoned;
}

/// The reason recorded when a persisted active schedule is discarded at
/// startup.
pub open spec fn spec_no_resume_reason() -> Seq<char> {
    "MVP 정책(NO_RESUME_IN_MVP)에 따라 앱 시작 시 이전 활성 스케줄 자동 복구를 지원하지 않아 해제되었습니다."@
}

/// The no-resume startup policy: any persisted active schedule is discarded
/// and the discard is logged; a stale in-flight schedule is never silently
/// continued. Returns whether anything was discarded.
pub fn enforce_no_resume_in_mvp(store: &mut SchedulerStore, now: i64) -> (r: bool)
    ensures
        r == (old(store).active is Some),
        !r ==> *final (store) == *old(store),
        r ==> {
            &&& final (store).active is None
            &&& spec_history_after_push(old(store).history@, final (store).history@)
            &&& spec_event(
                Some(old(store).active->Some_0.id@),
                "resume_not_supported"@,
                now,
                "ok"@,
                Some(spec_no_resume_reason()),
                final (store).history@.last(),
            )
            &&& final (store).settings == old(store).settings
            &&& final (store).id_seq == old(store).id_seq
            &&& final (store).last_schedule_request == old(store).last_schedule_request
        },
{
    let discarded_id: String = match &store.active {
        Some(active) => active.id.clone(),
        None => {
            return false;
        },
    };
    store.active = None;
    push_event(
        store,
        Some(discarded_id),
        "resume_not_supported",
        now,
        "ok",
        Some(
            String::from_str(
                "MVP 정책(NO_RESUME_IN_MVP)에 따라 앱 시작 시 이전 활성 스케줄 자동 복구를 지원하지 않아 해제되었습니다.",
            ),
        ),
    );
    true
}

/// The fail-safe cancellation of a process-exit schedule whose selector
/// became invalid: log the failure and drop the schedule if it is still the
/// active one. Failing open on a shutdown trigger is not acceptable.
pub fn apply_process_exit_fail_safe_cancel(
    store: &mut SchedulerStore,
    schedule_id: &str,
    reason: String,
    now: i64,
)
    ensures
        spec_history_after_push(old(store).history@, final (store).history@),
        spec_event(
            Some(schedule_id@),
            "failed"@,
            now,
            "error"@,
            Some(reason@),
            final (store).history@.last(),
        ),
        (match old(store).active {
            Some(a) => a.id@ == schedule_id@,
            None => false,
        }) ==> final (store).active is None,
        !(match old(store).active {
            Some(a) => a.id@ == schedule_id@,
            None => false,
        }) ==> final (store).active == old(store).active,
        final (store).settings == old(store).settings,
        final (store).id_seq == old(store).id_seq,
        final (store).last_schedule_request == old(store).last_schedule_request,
{
    push_event(store, Some(String::from_str(schedule_id)), "failed", now, "error", Some(reason));
    let matches_active: bool = match &store.active {
        Some(active) => str_eq(active.id.as_str(), schedule_id),
        None => false,
    };
    if matches_active {
        store.active = None;
    }
}

/// What probing a state file gave: absent, unreadable, parsed, or present
/// but unparseable.
#[derive(Debug, Clone, PartialEq, Eq)]
pub enum StateFileRead {
    Missing,
    Unreadable(String),
    Parsed(PersistedState),
    Corrupt(String),
}

/// What loading decided: the store to run with, whether it must be written
/// back at once, and the startup notice owed to the user.
#[derive(Debug, Clone, PartialEq, Eq)]
pub struct LoadStoreOutcome {
    pub store: SchedulerStore,
    pub needs_persist: bool,
    pub startup_notice: Option<String>,
}

/// A fresh store but for its history.
pub open spec fn spec_store_core_fresh(s: SchedulerStore) -> bool {
    &&& s.settings.default_pre_alerts@ == spec_default_alerts()
    &&& s.settings.final_warning_sec == FINAL_WARNING_DEFAULT_SEC
    &&& !s.settings.simulate_only
    &&& s.active is None
    &&& s.id_seq == 0
    &&& s.last_schedule_request is None
}

pub open spec fn spec_notice_restored() -> Seq<char> {
    "상태 파일 손상을 감지해 마지막 정상 백업(.bak)으로 복구했습니다. 현재 스케줄을 확인해 주세요."@
}

pub open spec fn spec_notice_reset() -> Seq<char> {
    "상태 파일 손상을 감지해 기본 상태로 복구했습니다. 기존 스케줄은 안전을 위해 복원되지 않았습니다."@
}

/// The reason logged for an unparseable state file, before what became of
/// the backup is appended.
pub open spec fn spec_parse_failed_reason_base(parse_error: Seq<char>, corrupt_path: Seq<char>)
    -> Seq<char> {
    "failed to parse state file: "@ + parse_error + "; quarantined at "@ + corrupt_path
}

/// Decide what to run with, given what probing the state file, quarantining
/// it, and probing its backup gave. A missing file starts fresh with no
/// fuss; a parsed one is adopted (normalized and sanitized); an unreadable
/// one or a failed quarantine is an error; an unparseable one falls back to
/// the parsed backup — or to the defaults — with the failure and any
/// recovery logged, a write-back demanded, and a startup notice saying
/// which of the two happened.
pub fn load_store(
    primary: StateFileRead,
    corrupt_path: &str,
    quarantine: Result<(), String>,
    backup: StateFileRead,
    backup_path: &str,
    now: i64,
) -> (r: Result<LoadStoreOutcome, String>)
    ensures
        match primary {
            StateFileRead::Missing => r matches Ok(o) && spec_store_is_fresh(o.store)
                && !o.needs_persist && o.startup_notice is None,
            StateFileRead::Unreadable(e) => r matches Err(m) && m@ == "failed to read state file: "@
                + e@,
            StateFileRead::Parsed(p) => r matches Ok(o) && spec_store_from_persisted(p, o.store)
                && !o.needs_persist && o.startup_notice is None,
            StateFileRead::Corrupt(parse_error) => match quarantine {
                Err(qe) => r matches Err(m) && m@
                    == "failed to quarantine corrupted state file to "@ + corrupt_path@ + ": "@
                    + qe@,
                Ok(()) => r matches Ok(o) && {
                    let base = spec_parse_failed_reason_base(parse_error@, corrupt_path@);
                    &&& o.needs_persist
                    &&& match backup {
                        StateFileRead::Parsed(b) => {
                            &&& spec_store_core_from_persisted(b, o.store)
                            &&& exists|mid: Seq<ExecutionEvent>|
                                {
                                    &&& spec_history_after_push(b.history@, mid)
                                    &&& mid.len() > 0
                                    &&& spec_event(
                                        None,
                                        "state_parse_failed"@,
                                        now,
                                        "error"@,
                                        Some(base),
                                        mid.last(),
                                    )
                                    &&& spec_history_after_push(mid, o.store.history@)
                                }
                            &&& o.store.history@.len() > 0
                            &&& spec_event(
                                None,
                                "state_restored_from_backup"@,
                                now,
                                "ok"@,
                                Some("restored state from "@ + backup_path@),
                                o.store.history@.last(),
                            )
                            &&& o.startup_notice matches Some(n) && n@ == spec_notice_restored()
                        },
                        StateFileRead::Missing => {
                            &&& spec_store_core_fresh(o.store)
                            &&& o.store.history@.len() == 1
                            &&& spec_event(
                                None,
                                "state_parse_failed"@,
                                now,
                                "error"@,
                                Some(base + "; backup not found"@),
                                o.store.history@.last(),
                            )
                            &&& o.startup_notice matches Some(n) && n@ == spec_notice_reset()
                        },
                        StateFileRead::Unreadable(e) => {
                            &&& spec_store_core_fresh(o.store)
                            &&& o.store.history@.len() == 1
                            &&& spec_event(
                                None,
                                "state_parse_failed"@,
                                now,
                                "error"@,
                                Some(
                                    base + "; backup read failed ("@ + backup_path@ + "): "@ + e@,
                                ),
                                o.store.history@.last(),
                            )
                            &&& o.startup_notice matches Some(n) && n@ == spec_notice_reset()
                        },
                        StateFileRead::Corrupt(e) => {
                            &&& spec_store_core_fresh(o.store)
                            &&& o.store.history@.len() == 1
                            &&& spec_event(
                                None,
                                "state_parse_failed"@,
                                now,
                                "error"@,
                                Some(
                                    base + "; backup parse failed ("@ + backup_path@ + "): "@ + e@,
                                ),
                                o.store.history@.last(),
                            )
                            &&& o.startup_notice matches Some(n) && n@ == spec_notice_reset()
                        },
                    }
                },
            },
        },
{
    let parse_error: String = match primary {
        StateFileRead::Missing => {
            return Ok(
                LoadStoreOutcome {
                    store: SchedulerStore::default(),
                    needs_persist: false,
                    startup_notice: None,
                },
            );
        },
        StateFileRead::Unreadable(e) => {
            let mut m = String::from_str("failed to read state file: ");
            m.append(e.as_str());
            return Err(m);
        },
        StateFileRead::Parsed(p) => {
            return Ok(
                LoadStoreOutcome {
                    store: SchedulerStore::from_persisted(p),
                    needs_persist: false,
                    startup_notice: None,
                },
            );
        },
        StateFileRead::Corrupt(e) => e,
    };

    match quarantine {
        Ok(()) => {},
        Err(qe) => {
            let mut m = String::from_str("failed to quarantine corrupted state file to ");
            m.append(corrupt_path);
            m.append(": ");
            m.append(qe.as_str());
            proof {
                assert(m@ =~= "failed to quarantine corrupted state file to "@ + corrupt_path@
                    + ": "@ + qe@);
            }
            return Err(m);
        },
    }

    let mut reason = String::from_str("failed to parse state file: ");
    reason.append(parse_error.as_str());
    reason.append("; quarantined at ");
    reason.append(corrupt_path);
    proof {
        assert(reason@ =~= spec_parse_failed_reason_base(parse_error@, corrupt_path@));
    }

    let mut store = SchedulerStore::default();
    let mut recovered_from_backup = false;
    match backup {
        StateFileRead::Parsed(b) => {
            store = SchedulerStore::from_persisted(b);
            recovered_from_backup = true;
        },
        StateFileRead::Missing => {
            reason.append("; backup not found");
        },
        StateFileRead::Unreadable(e) => {
            reason.append("; backup read failed (");
            reason.append(backup_path);
            reason.append("): ");
            reason.append(e.as_str());
        },
        StateFileRead::Corrupt(e) => {
            reason.append("; backup parse failed (");
            reason.append(backup_path);
            reason.append("): ");
            reason.append(e.as_str());
        },
    }

    push_event(&mut store, None, "state_parse_failed", now, "error", Some(reason));
    let ghost mid_history = store.history@;

    let startup_notice: Option<String>;
    if recovered_from_backup {
        let mut restored = String::from_str("restored state from ");
        restored.append(backup_path);
        push_event(&mut store, None, "state_restored_from_backup", now, "ok", Some(restored));
        startup_notice = Some(
            String::from_str(
                "상태 파일 손상을 감지해 마지막 정상 백업(.bak)으로 복구했습니다. 현재 스케줄을 확인해 주세요.",
            ),
        );
    } else {
        startup_notice = Some(
            String::from_str(
                "상태 파일 손상을 감지해 기본 상태로 복구했습니다. 기존 스케줄은 안전을 위해 복원되지 않았습니다.",
            ),
        );
    }

    Ok(LoadStoreOutcome { store, needs_persist: true, startup_notice })
}

} // verus!
