//! The texts of the desktop notifications. Delivery is a fire-and-forget
//! collaborator outside this crate; here only the wording is decided, and
//! each function pins its text exactly.
use vstd::prelude::*;
use vstd::string::StringExecFns;
use crate::text::spec_decimal;
use crate::text::u64_to_string;
use crate::types::ActiveSchedule;
use crate::types::ScheduleStatus;

verus! {

/// The pre-alert text: minutes when the lead time is a whole number of
/// minutes, seconds otherwise.
pub open spec fn spec_pre_alert_body(threshold_sec: u64) -> Seq<char> {
    if threshold_sec % 60 == 0 {
        "자동 종료까지 "@ + spec_decimal((threshold_sec / 60) as nat)
            + "분 남았습니다. 지금 취소하거나 미룰 수 있습니다. (앱/트레이)"@
    } else {
        "자동 종료까지 "@ + spec_decimal(threshold_sec as nat)
            + "초 남았습니다. 지금 취소하거나 미룰 수 있습니다. (앱/트레이)"@
    }
}

pub fn pre_alert_notification_body(threshold_sec: u64) -> (r: String)
    ensures
        r@ == spec_pre_alert_body(threshold_sec),
{
    let mut s = String::from_str("자동 종료까지 ");
    if threshold_sec % 60 == 0 {
        let minutes = u64_to_string(threshold_sec / 60);
        s.append(minutes.as_str());
        s.append("분 남았습니다. 지금 취소하거나 미룰 수 있습니다. (앱/트레이)");
    } else {
        let seconds = u64_to_string(threshold_sec);
        s.append(seconds.as_str());
        s.append("초 남았습니다. 지금 취소하거나 미룰 수 있습니다. (앱/트레이)");
    }
    proof {
        assert(s@ =~= spec_pre_alert_body(threshold_sec));
    }
    s
}

/// The text announcing the final warning of a time-based schedule.
pub open spec fn spec_final_warning_body(final_warning_sec: u64) -> Seq<char> {
    "종료 "@ + spec_decimal(final_warning_sec as nat)
        + "초 전입니다. 지금 취소하지 않으면 종료가 진행됩니다. 앱/트레이에서 취소 또는 미루기가 가능합니다."@
}

pub fn final_warning_notification_body(final_warning_sec: u64) -> (r: String)
    ensures
        r@ == spec_final_warning_body(final_warning_sec),
{
    let mut s = String::from_str("종료 ");
    let seconds = u64_to_string(final_warning_sec);
    s.append(seconds.as_str());
    s.append("초 전입니다. 지금 취소하지 않으면 종료가 진행됩니다. 앱/트레이에서 취소 또는 미루기가 가능합니다.");
    proof {
        assert(s@ =~= spec_final_warning_body(final_warning_sec));
    }
    s
}

/// The text announcing the final warning after the watched process exited.
pub open spec fn spec_process_exit_final_warning_body(final_warning_sec: u64) -> Seq<char> {
    "프로세스 종료가 감지되어 최종 경고가 시작되었습니다. 종료 "@ + spec_decimal(
        final_warning_sec as nat,
    ) + "초 전입니다. 앱/트레이에서 취소 또는 미루기가 가능합니다."@
}

pub fn process_exit_final_warning_notification_body(final_warning_sec: u64) -> (r: String)
    ensures
        r@ == spec_process_exit_final_warning_body(final_warning_sec),
{
    let mut s = String::from_str("프로세스 종료가 감지되어 최종 경고가 시작되었습니다. 종료 ");
    let seconds = u64_to_string(final_warning_sec);
    s.append(seconds.as_str());
    s.append("초 전입니다. 앱/트레이에서 취소 또는 미루기가 가능합니다.");
    proof {
        assert(s@ =~= spec_process_exit_final_warning_body(final_warning_sec));
    }
    s
}

/// Whole seconds from `now` until `t`, zero when `t` has passed.
pub open spec fn spec_remaining_sec(t: i64, now: i64) -> nat {
    if t > now {
        ((t - now) / 1000) as nat
    } else {
        0
    }
}

fn remaining_sec(t: i64, now: i64) -> (r: u64)
    ensures
        r == spec_remaining_sec(t, now),
{
    if t > now {
        let diff: u128 = ((t as i128) - (now as i128)) as u128;
        proof {
            assert(diff / 1000 < 0x10000000000000000u128);
        }
        (diff / 1000) as u64
    } else {
        0
    }
}

/// The one-line status shown from the tray: executing, a timed shutdown
/// with its local-time label and the seconds left, a plain countdown, a
/// process watch, or no schedule at all. The caller supplies the formatted
/// local-time label for the advisory shutdown moment.
pub open spec fn spec_tray_status_message(
    active: Option<ActiveSchedule>,
    now: i64,
    local_time_label: Seq<char>,
    r: Seq<char>,
) -> bool {
    match active {
        None => r == "활성 스케줄 없음"@,
        Some(a) => {
            if a.status is ShuttingDown {
                r == "종료 명령 실행 중"@
            } else {
                match a.shutdown_at_ms {
                    Some(t) => r == "종료 예정 "@ + local_time_label + " · "@ + spec_decimal(
                        spec_remaining_sec(t, now),
                    ) + "초 남음"@,
                    None => match a.trigger_at_ms {
                        Some(t) => r == "자동 종료 대기 중 · "@ + spec_decimal(
                            spec_remaining_sec(t, now),
                        ) + "초 남음"@,
                        None => r == "자동 종료 대기 중 · 프로세스 종료 감시"@,
                    },
                }
            }
        },
    }
}

pub fn tray_status_message(active: Option<&ActiveSchedule>, now: i64, local_time_label: &str) -> (r:
    String)
    ensures
        spec_tray_status_message(
            match active {
                Some(a) => Some(*a),
                None => None,
            },
            now,
            local_time_label@,
            r@,
        ),
{
    match active {
        None => String::from_str("활성 스케줄 없음"),
        Some(a) => {
            if matches!(a.status, ScheduleStatus::ShuttingDown) {
                String::from_str("종료 명령 실행 중")
            } else if let Some(t) = a.shutdown_at_ms {
                let mut s = String::from_str("종료 예정 ");
                s.append(local_time_label);
                s.append(" · ");
                let secs = u64_to_string(remaining_sec(t, now));
                s.append(secs.as_str());
                s.append("초 남음");
                proof {
                    assert(s@ =~= "종료 예정 "@ + local_time_label@ + " · "@ + spec_decimal(
                        spec_remaining_sec(t, now),
                    ) + "초 남음"@);
                }
                s
            } else if let Some(t) = a.trigger_at_ms {
                let mut s = String::from_str("자동 종료 대기 중 · ");
                let secs = u64_to_string(remaining_sec(t, now));
                s.append(secs.as_str());
                s.append("초 남음");
                proof {
                    assert(s@ =~= "자동 종료 대기 중 · "@ + spec_decimal(spec_remaining_sec(t, now))
                        + "초 남음"@);
                }
                s
            } else {
                String::from_str("자동 종료 대기 중 · 프로세스 종료 감시")
            }
        },
    }
}

} // verus!
