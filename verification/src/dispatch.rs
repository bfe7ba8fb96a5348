//! The shutdown-dispatch plan: which command line the host gets, whether the
//! run is simulated, and the log line recorded for it. Running the command
//! is the caller's business; deciding it is decided here, exactly.
use vstd::prelude::*;
use vstd::string::StringExecFns;
use crate::text::spec_decimal;
use crate::text::u64_to_string;

verus! {

/// The delay handed to the Windows shutdown command, which keeps it
/// abortable for that many seconds.
pub const WINDOWS_ABORTABLE_SHUTDOWN_SEC: u64 = 30;

/// Which host family the command plan is for.
#[derive(Debug, Clone, Copy, PartialEq, Eq, Structural)]
pub enum HostOs {
    Windows,
    MacOs,
    Other,
}

/// What a shutdown dispatch reports: the command line, how to abort it where
/// the host allows that, and whether the run was simulated.
#[derive(Debug, Clone, PartialEq, Eq)]
pub struct ShutdownDispatchReport {
    pub command_line: String,
    pub abort_hint: Option<String>,
    pub dry_run: bool,
}

pub open spec fn spec_windows_command_line() -> Seq<char> {
    "shutdown /s /t "@ + spec_decimal(WINDOWS_ABORTABLE_SHUTDOWN_SEC as nat)
}

pub open spec fn spec_macos_command_line() -> Seq<char> {
    "osascript -e \"tell application \\\"System Events\\\" to shut down\""@
}

pub open spec fn spec_unsupported_command_line() -> Seq<char> {
    "shutdown command unsupported on this OS"@
}

/// The dispatch plan for a host: the host's own shutdown command line, an
/// abort hint only on Windows, and a dry run exactly when the user's
/// simulate-only setting or the forced-simulation flag asks for one.
pub open spec fn spec_command_plan(
    simulate_only: bool,
    force_simulate: bool,
    os: HostOs,
    r: ShutdownDispatchReport,
) -> bool {
    &&& r.dry_run == (simulate_only || force_simulate)
    &&& match os {
        HostOs::Windows => r.command_line@ == spec_windows_command_line() && (r.abort_hint
            matches Some(h) && h@ == "shutdown /a"@),
        HostOs::MacOs => r.command_line@ == spec_macos_command_line() && r.abort_hint is None,
        HostOs::Other => r.command_line@ == spec_unsupported_command_line() && r.abort_hint
            is None,
    }
}

/// Decide the dispatch plan. Only the decision: the caller performs or
/// simulates it.
pub fn shutdown_command_plan(simulate_only: bool, force_simulate: bool, os: HostOs) -> (r:
    ShutdownDispatchReport)
    ensures
        spec_command_plan(simulate_only, force_simulate, os, r),
{
    let dry_run = simulate_only || force_simulate;
    match os {
        HostOs::Windows => {
            let mut command_line = String::from_str("shutdown /s /t ");
            let delay = u64_to_string(WINDOWS_ABORTABLE_SHUTDOWN_SEC);
            command_line.append(delay.as_str());
            proof {
                assert(command_line@ =~= spec_windows_command_line());
            }
            ShutdownDispatchReport {
                command_line,
                abort_hint: Some(String::from_str("shutdown /a")),
                dry_run,
            }
        },
        HostOs::MacOs => ShutdownDispatchReport {
            command_line: String::from_str(
                "osascript -e \"tell application \\\"System Events\\\" to shut down\"",
            ),
            abort_hint: None,
            dry_run,
        },
        HostOs::Other => ShutdownDispatchReport {
            command_line: String::from_str("shutdown command unsupported on this OS"),
            abort_hint: None,
            dry_run,
        },
    }
}

/// The log line of a dispatch: the dry-run or sent prefix, the command
/// line, and the abort hint when there is one.
pub open spec fn spec_log_line(r: ShutdownDispatchReport) -> Seq<char> {
    let prefix: Seq<char> = if r.dry_run {
        "DRY_RUN_SHUTDOWN_COMMAND"@
    } else {
        "SHUTDOWN_COMMAND_SENT"@
    };
    match r.abort_hint {
        Some(abort) => prefix + ": "@ + r.command_line@ + " (abort: "@ + abort@ + ")"@,
        None => prefix + ": "@ + r.command_line@,
    }
}

impl ShutdownDispatchReport {
    /// Render the log line recorded in the history for this dispatch.
    pub fn log_line(&self) -> (r: String)
        ensures
            r@ == spec_log_line(*self),
    {
        let mut s = if self.dry_run {
            String::from_str("DRY_RUN_SHUTDOWN_COMMAND")
        } else {
            String::from_str("SHUTDOWN_COMMAND_SENT")
        };
        s.append(": ");
        s.append(self.command_line.as_str());
        match &self.abort_hint {
            Some(abort) => {
                s.append(" (abort: ");
                s.append(abort.as_str());
                s.append(")");
                proof {
                    assert(s@ =~= spec_log_line(*self));
                }
                s
            },
            None => {
                proof {
                    assert(s@ =~= spec_log_line(*self));
                }
                s
            },
        }
    }
}

} // verus!
