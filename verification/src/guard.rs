//! The lifecycle guard: whether a request to leave the application must be
//! intercepted because a schedule is still pending, and the three allowed
//! resolutions of that interception.
use vstd::prelude::*;
use vstd::string::StringExecFns;
use crate::history::push_event;
use crate::history::spec_event;
use crate::history::spec_history_after_push;
use crate::schedule::is_shutdown_execution_started;
use crate::schedule::spec_is_execution_started;
use crate::types::RuntimeState;
use crate::types::ScheduleStatus;
use crate::types::SchedulerStore;

verus! {

/// How a blocked exit request may be resolved.
#[derive(Debug, Clone, Copy, PartialEq, Eq, Structural)]
pub enum QuitGuardAction {
    CancelAndQuit,
    KeepBackground,
    Return,
}

/// What resolving the guard decided: whether to exit, whether to only hide
/// the window, and whether the store changed.
#[derive(Debug, Clone, Copy, PartialEq, Eq, Structural)]
pub struct QuitResolutionOutcome {
    pub should_exit: bool,
    pub should_hide_window: bool,
    pub store_changed: bool,
}

/// The statuses that make an exit request stop for confirmation.
pub open spec fn spec_is_quit_guard_status(status: ScheduleStatus) -> bool {
    status is Armed || status is FinalWarning
}

pub fn is_quit_guard_status(status: &ScheduleStatus) -> (r: bool)
    ensures
        r == spec_is_quit_guard_status(*status),
{
    matches!(status, ScheduleStatus::Armed | ScheduleStatus::FinalWarning)
}

/// The status that currently forces the guard, if any: the active
/// schedule's status when it is `Armed` or `FinalWarning`.
pub fn active_status_requiring_quit_guard(store: &SchedulerStore) -> (r: Option<ScheduleStatus>)
    ensures
        r == (match store.active {
            Some(a) => if spec_is_quit_guard_status(a.status) {
                Some(a.status)
            } else {
                None
            },
            None => None,
        }),
{
    match &store.active {
        Some(active) => {
            if is_quit_guard_status(&active.status) {
                Some(active.status)
            } else {
                None
            }
        },
        None => None,
    }
}

pub open spec fn spec_cancel_refused_error() -> Seq<char> {
    "shutdown has already started; cannot cancel"@
}

pub open spec fn spec_user_cancel_and_quit_reason() -> Seq<char> {
    "사용자가 '스케줄 취소 후 종료'를 선택했습니다."@
}

/// Resolve a blocked exit request. Cancel-and-quit is the only resolution
/// that touches the store: it cancels a not-yet-committed schedule and logs
/// the cancellation, and is refused once the schedule has committed.
/// Keep-in-background hides the window only; returning changes nothing.
pub fn apply_quit_guard_action(store: &mut SchedulerStore, action: QuitGuardAction, now: i64) -> (r:
    Result<QuitResolutionOutcome, String>)
    ensures
        match action {
            QuitGuardAction::CancelAndQuit => match old(store).active {
                Some(a) => {
                    if spec_is_execution_started(a) {
                        &&& r matches Err(e) && e@ == spec_cancel_refused_error()
                        &&& *final (store) == *old(store)
                    } else {
                        &&& r == Ok::<QuitResolutionOutcome, String>(
                            QuitResolutionOutcome {
                                should_exit: true,
                                should_hide_window: false,
                                store_changed: true,
                            },
                        )
                        &&& final (store).active is None
                        &&& spec_history_after_push(old(store).history@, final (store).history@)
                        &&& spec_event(
                            Some(a.id@),
                            "cancelled"@,
                            now,
                            "ok"@,
                            Some(spec_user_cancel_and_quit_reason()),
                            final (store).history@.last(),
                        )
                        &&& final (store).settings == old(store).settings
                        &&& final (store).id_seq == old(store).id_seq
                        &&& final (store).last_schedule_request == old(
                            store,
                        ).last_schedule_request
                    }
                },
                None => r == Ok::<QuitResolutionOutcome, String>(
                    QuitResolutionOutcome {
                        should_exit: true,
                        should_hide_window: false,
                        store_changed: false,
                    },
                ) && *final (store) == *old(store),
            },
            QuitGuardAction::KeepBackground => r == Ok::<QuitResolutionOutcome, String>(
                QuitResolutionOutcome {
                    should_exit: false,
                    should_hide_window: true,
                    store_changed: false,
                },
            ) && *final (store) == *old(store),
            QuitGuardAction::Return => r == Ok::<QuitResolutionOutcome, String>(
                QuitResolutionOutcome {
                    should_exit: false,
                    should_hide_window: false,
                    store_changed: false,
                },
            ) && *final (store) == *old(store),
        },
{
    match action {
        QuitGuardAction::CancelAndQuit => {
            let schedule_id: Option<String> = match &store.active {
                Some(active) => {
                    if is_shutdown_execution_started(active) {
                        return Err(String::from_str("shutdown has already started; cannot cancel"));
                    }
                    Some(active.id.clone())
                },
                None => None,
            };
            match schedule_id {
                Some(id) => {
                    store.active = None;
                    push_event(
                        store,
                        Some(id),
                        "cancelled",
                        now,
                        "ok",
                        Some(String::from_str("사용자가 '스케줄 취소 후 종료'를 선택했습니다.")),
                    );
                    Ok(
                        QuitResolutionOutcome {
                            should_exit: true,
                            should_hide_window: false,
                            store_changed: true,
                        },
                    )
                },
                None => Ok(
                    QuitResolutionOutcome {
                        should_exit: true,
                        should_hide_window: false,
                        store_changed: false,
                    },
                ),
            }
        },
        QuitGuardAction::KeepBackground => Ok(
            QuitResolutionOutcome {
                should_exit: false,
                should_hide_window: true,
                store_changed: false,
            },
        ),
        QuitGuardAction::Return => Ok(
            QuitResolutionOutcome {
                should_exit: false,
                should_hide_window: false,
                store_changed: false,
            },
        ),
    }
}

/// Arm or clear the one-shot permission to leave without the guard.
pub fn set_allow_exit_once(runtime: &mut RuntimeState, allow: bool)
    ensures
        final (runtime).allow_exit_once == allow,
{
    runtime.allow_exit_once = allow;
}

/// Take the one-shot permission: reports whether it was set, and clears it.
pub fn consume_allow_exit_once(runtime: &mut RuntimeState) -> (r: bool)
    ensures
        r == old(runtime).allow_exit_once,
        !final (runtime).allow_exit_once,
{
    if runtime.allow_exit_once {
        runtime.allow_exit_once = false;
        true
    } else {
        false
    }
}

} // verus!
