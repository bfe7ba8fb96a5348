//! The schedule's derived shutdown moment, the sanitization applied at the
//! persistence boundary, and the one-time, irreversible commit into
//! execution.
use vstd::prelude::*;
use crate::types::ActiveSchedule;
use crate::types::ScheduleMode;
use crate::types::ScheduleStatus;
use crate::settings::spec_normalize_final_warning_sec;
use crate::settings::normalize_final_warning_sec;
use crate::settings::FINAL_WARNING_MIN_SEC;
use crate::settings::FINAL_WARNING_MAX_SEC;

verus! {

/// The advisory shutdown moment: for an armed time-based schedule the
/// trigger plus the final-warning window; for a running or committed final
/// warning its start plus the window; undefined for an armed process-exit
/// schedule. `None` also when the sum leaves the representable range.
pub open spec fn spec_compute_shutdown_at_ms(a: ActiveSchedule) -> Option<i64> {
    match a.status {
        ScheduleStatus::Armed => match a.mode {
            ScheduleMode::Countdown | ScheduleMode::SpecificTime => match a.trigger_at_ms {
                Some(t) => spec_add_window(t, a.final_warning_duration_sec),
                None => None,
            },
            ScheduleMode::ProcessExit => None,
        },
        ScheduleStatus::FinalWarning | ScheduleStatus::ShuttingDown => match a
            .final_warning_started_at_ms {
            Some(s) => spec_add_window(s, a.final_warning_duration_sec),
            None => None,
        },
    }
}

/// `base + window_sec * 1000`, or `None` past the representable range.
pub open spec fn spec_add_window(base: i64, window_sec: u64) -> Option<i64> {
    if base + window_sec * 1000 <= i64::MAX {
        Some((base + window_sec * 1000) as i64)
    } else {
        None
    }
}

fn add_window(base: i64, window_sec: u64) -> (r: Option<i64>)
    ensures
        r == spec_add_window(base, window_sec),
{
    let sum: i128 = (base as i128) + (window_sec as i128) * 1000;
    if sum <= i64::MAX as i128 {
        proof {
            assert(sum >= i64::MIN as i128);
        }
        Some(sum as i64)
    } else {
        None
    }
}

/// Compute the advisory shutdown moment for display; it never itself gates
/// execution.
pub fn compute_shutdown_at_ms(active: &ActiveSchedule) -> (r: Option<i64>)
    ensures
        r == spec_compute_shutdown_at_ms(*active),
{
    match active.status {
        ScheduleStatus::Armed => match active.mode {
            ScheduleMode::Countdown | ScheduleMode::SpecificTime => match active.trigger_at_ms {
                Some(t) => add_window(t, active.final_warning_duration_sec),
                None => None,
            },
            ScheduleMode::ProcessExit => None,
        },
        ScheduleStatus::FinalWarning | ScheduleStatus::ShuttingDown => {
            match active.final_warning_started_at_ms {
                Some(s) => add_window(s, active.final_warning_duration_sec),
                None => None,
            }
        },
    }
}

/// Recompute the advisory shutdown moment after a status or timer change;
/// reports whether the stored value moved.
pub fn sync_shutdown_at_ms(active: &mut ActiveSchedule) -> (changed: bool)
    ensures
        final (active).shutdown_at_ms == spec_compute_shutdown_at_ms(*old(active)),
        *final (active) == (ActiveSchedule {
            shutdown_at_ms: spec_compute_shutdown_at_ms(*old(active)),
            ..*old(active)
        }),
        changed == (old(active).shutdown_at_ms != spec_compute_shutdown_at_ms(*old(active))),
{
    let computed = compute_shutdown_at_ms(active);
    let same: bool = match (active.shutdown_at_ms, computed) {
        (Some(a), Some(b)) => a == b,
        (None, None) => true,
        _ => false,
    };
    if !same {
        active.shutdown_at_ms = computed;
        true
    } else {
        proof {
            assert(old(active).shutdown_at_ms == computed);
        }
        false
    }
}

/// A schedule as it is written to disk: the final-warning duration brought
/// into range, a transient `ShuttingDown` downgraded to `FinalWarning` with
/// the commit stamp cleared, and the advisory moment recomputed. The
/// on-disk form never claims a shutdown is mid-flight, since that claim
/// cannot be trusted across a crash.
pub open spec fn spec_sanitize_for_persist(a: ActiveSchedule) -> ActiveSchedule {
    let b = ActiveSchedule {
        final_warning_duration_sec: spec_normalize_final_warning_sec(a.final_warning_duration_sec),
        status: if a.status is ShuttingDown {
            ScheduleStatus::FinalWarning
        } else {
            a.status
        },
        shutdown_initiated_at_ms: if a.status is ShuttingDown {
            None
        } else {
            a.shutdown_initiated_at_ms
        },
        ..a
    };
    ActiveSchedule { shutdown_at_ms: spec_compute_shutdown_at_ms(b), ..b }
}

pub fn sanitize_active_for_persist(active: ActiveSchedule) -> (r: ActiveSchedule)
    ensures
        r == spec_sanitize_for_persist(active),
{
    let mut next = active;
    next.final_warning_duration_sec = normalize_final_warning_sec(next.final_warning_duration_sec);
    if matches!(next.status, ScheduleStatus::ShuttingDown) {
        next.status = ScheduleStatus::FinalWarning;
        next.shutdown_initiated_at_ms = None;
    }
    let _ = sync_shutdown_at_ms(&mut next);
    next
}

/// A schedule as it is adopted from disk: a persisted `ShuttingDown` is
/// distrusted (downgraded, with the commit stamp cleared), an out-of-range
/// final-warning duration falls back to the normalized settings value, and
/// the advisory moment is recomputed.
pub open spec fn spec_sanitize_from_persist(
    a: ActiveSchedule,
    fallback_final_warning_sec: u64,
) -> ActiveSchedule {
    let b = ActiveSchedule {
        status: if a.status is ShuttingDown {
            ScheduleStatus::FinalWarning
        } else {
            a.status
        },
        shutdown_initiated_at_ms: if a.status is ShuttingDown {
            None
        } else {
            a.shutdown_initiated_at_ms
        },
        final_warning_duration_sec: if FINAL_WARNING_MIN_SEC <= a.final_warning_duration_sec
            && a.final_warning_duration_sec <= FINAL_WARNING_MAX_SEC {
            a.final_warning_duration_sec
        } else {
            spec_normalize_final_warning_sec(fallback_final_warning_sec)
        },
        ..a
    };
    ActiveSchedule { shutdown_at_ms: spec_compute_shutdown_at_ms(b), ..b }
}

pub fn sanitize_active_from_persist(
    active: ActiveSchedule,
    fallback_final_warning_sec: u64,
) -> (r: ActiveSchedule)
    ensures
        r == spec_sanitize_from_persist(active, fallback_final_warning_sec),
{
    let mut next = active;
    if matches!(next.status, ScheduleStatus::ShuttingDown) {
        next.status = ScheduleStatus::FinalWarning;
        next.shutdown_initiated_at_ms = None;
    }
    let was_invalid = !(FINAL_WARNING_MIN_SEC <= next.final_warning_duration_sec
        && next.final_warning_duration_sec <= FINAL_WARNING_MAX_SEC);
    if was_invalid {
        next.final_warning_duration_sec = normalize_final_warning_sec(fallback_final_warning_sec);
    }
    let _ = sync_shutdown_at_ms(&mut next);
    next
}

/// The schedule has committed: its status says so, or the commit stamp is
/// set.
pub open spec fn spec_is_execution_started(a: ActiveSchedule) -> bool {
    a.status is ShuttingDown || a.shutdown_initiated_at_ms is Some
}

pub fn is_shutdown_execution_started(schedule: &ActiveSchedule) -> (r: bool)
    ensures
        r == spec_is_execution_started(*schedule),
{
    matches!(schedule.status, ScheduleStatus::ShuttingDown)
        || schedule.shutdown_initiated_at_ms.is_some()
}

/// The commit condition: not yet committed, in the final warning, its start
/// stamped, and the full final-warning window elapsed at `now`.
pub open spec fn spec_should_initiate(a: ActiveSchedule, now: i64) -> bool {
    &&& !spec_is_execution_started(a)
    &&& a.status is FinalWarning
    &&& match a.final_warning_started_at_ms {
        Some(started) => now - started >= a.final_warning_duration_sec * 1000,
        None => false,
    }
}

/// The schedule after a successful commit at `now`.
pub open spec fn spec_committed(a: ActiveSchedule, now: i64) -> ActiveSchedule {
    ActiveSchedule {
        status: ScheduleStatus::ShuttingDown,
        shutdown_initiated_at_ms: Some(now),
        ..a
    }
}

/// The one-way, one-time transition into execution: succeeds exactly when
/// the final-warning window has elapsed on an uncommitted schedule, and
/// never changes an already-committed one. Repeated calls after a success
/// return false and leave the schedule as it was.
pub fn try_mark_shutdown_initiated(schedule: &mut ActiveSchedule, now: i64) -> (r: bool)
    ensures
        r == spec_should_initiate(*old(schedule), now),
        r ==> *final (schedule) == spec_committed(*old(schedule), now),
        !r ==> *final (schedule) == *old(schedule),
{
    if is_shutdown_execution_started(schedule) {
        return false;
    }
    if !matches!(schedule.status, ScheduleStatus::FinalWarning) {
        return false;
    }
    let started_at_ms: i64 = match schedule.final_warning_started_at_ms {
        Some(v) => v,
        None => {
            return false;
        },
    };
    let elapsed: i128 = (now as i128) - (started_at_ms as i128);
    if elapsed < (schedule.final_warning_duration_sec as i128) * 1000 {
        return false;
    }
    schedule.status = ScheduleStatus::ShuttingDown;
    schedule.shutdown_initiated_at_ms = Some(now);
    true
}

} // verus!
