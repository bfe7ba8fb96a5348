//! Process-selector normalization and validation. A selector must name its
//! target by PID or by a non-empty name, and a shell-like name alone is
//! rejected: matching any shell process by bare name would make an
//! accidental shutdown far too easy.
use vstd::prelude::*;
use vstd::string::StringExecFns;
use crate::text::spec_trim;
use crate::text::trim_str;
use crate::text::lower_of;
use crate::text::lowercase_str;
use crate::text::spec_contains;
use crate::text::str_contains;
use crate::text::spec_ends_with;
use crate::text::str_ends_with;
use crate::text::spec_slashes;
use crate::text::replace_backslashes;
use crate::text::str_eq;
use crate::types::ActiveSchedule;
use crate::types::ProcessSelector;
use crate::types::opt_str_view;

verus! {

/// The view of an optional borrowed string.
pub open spec fn opt_ref_view(o: Option<&String>) -> Option<Seq<char>> {
    match o {
        Some(s) => Some(s@),
        None => None,
    }
}

/// A selector text field in normal form: trimmed, and dropped entirely when
/// nothing but whitespace remains.
pub open spec fn spec_normalize_text(o: Option<Seq<char>>) -> Option<Seq<char>> {
    match o {
        Some(s) => if spec_trim(s).len() == 0 {
            None
        } else {
            Some(spec_trim(s))
        },
        None => None,
    }
}

/// Trim an optional selector text, keeping it only when non-empty.
pub fn normalize_selector_text(value: Option<&String>) -> (r: Option<String>)
    ensures
        opt_str_view(r) == spec_normalize_text(opt_ref_view(value)),
{
    match value {
        Some(item) => {
            let trimmed = trim_str(item.as_str());
            if trimmed.as_str().is_empty() {
                None
            } else {
                Some(trimmed)
            }
        },
        None => None,
    }
}

/// A selector path in normal form: trimmed, separators unified to forward
/// slashes, and case-folded for case-insensitive comparison.
pub open spec fn spec_normalize_path(o: Option<Seq<char>>) -> Option<Seq<char>> {
    match spec_normalize_text(o) {
        Some(t) => Some(lower_of(spec_slashes(t))),
        None => None,
    }
}

/// Normalize an optional executable path for comparison.
pub fn normalize_selector_path(value: Option<&String>) -> (r: Option<String>)
    ensures
        opt_str_view(r) == spec_normalize_path(opt_ref_view(value)),
{
    match normalize_selector_text(value) {
        Some(path) => {
            let slashed = replace_backslashes(path.as_str());
            Some(lowercase_str(slashed.as_str()))
        },
        None => None,
    }
}

/// Whether a case-folded process name looks like a shell interpreter: it
/// mentions powershell or pwsh, or it is (or its path ends in) bash, zsh or
/// sh.
pub open spec fn spec_shell_like(l: Seq<char>) -> bool {
    ||| spec_contains(l, "powershell"@)
    ||| spec_contains(l, "pwsh"@)
    ||| l == "bash"@
    ||| spec_ends_with(l, "/bash"@)
    ||| l == "zsh"@
    ||| spec_ends_with(l, "/zsh"@)
    ||| l == "sh"@
    ||| spec_ends_with(l, "/sh"@)
}

/// Case-insensitively decide whether a process name is shell-like.
pub fn is_shell_like_process_name(name: &str) -> (r: bool)
    ensures
        r == spec_shell_like(lower_of(name@)),
{
    let normalized = lowercase_str(name);
    let n = normalized.as_str();
    str_contains(n, "powershell") || str_contains(n, "pwsh") || str_eq(n, "bash") || str_ends_with(
        n,
        "/bash",
    ) || str_eq(n, "zsh") || str_ends_with(n, "/zsh") || str_eq(n, "sh") || str_ends_with(n, "/sh")
}

pub open spec fn spec_selector_missing_error() -> Seq<char> {
    "process selector is missing"@
}

pub open spec fn spec_selector_empty_error() -> Seq<char> {
    "process selector is empty"@
}

/// The message naming the shell-safety requirement: a shell-like name needs
/// an executable or command-line criterion beside it.
pub open spec fn spec_shell_guard_error() -> Seq<char> {
    "shell 계열 프로세스는 오탐 방지를 위해 executable 또는 cmdlineContains가 필요합니다."@
}

/// The validation verdict on a selector: the error owed, or the normalized
/// selector.
pub open spec fn spec_validated_selector(selector: Option<ProcessSelector>, r: Result<
    ProcessSelector,
    String,
>) -> bool {
    match selector {
        None => r matches Err(e) && e@ == spec_selector_missing_error(),
        Some(s) => {
            let nm = spec_normalize_text(opt_str_view(s.name));
            let ex = spec_normalize_text(opt_str_view(s.executable));
            let cm = spec_normalize_text(opt_str_view(s.cmdline_contains));
            if s.pid is None && nm is None {
                r matches Err(e) && e@ == spec_selector_empty_error()
            } else if (match nm {
                Some(n) => spec_shell_like(lower_of(n)),
                None => false,
            }) && ex is None && cm is None {
                r matches Err(e) && e@ == spec_shell_guard_error()
            } else {
                r matches Ok(sel) && sel.pid == s.pid && opt_str_view(sel.name) == nm
                    && opt_str_view(sel.executable) == ex && opt_str_view(sel.cmdline_contains)
                    == cm
            }
        },
    }
}

/// Validate and normalize a selector: it must name a PID or a non-empty
/// name, and a shell-like name must come with an executable or command-line
/// criterion. Returns the trimmed selector, or the error saying exactly
/// which requirement failed.
pub fn normalize_and_validate_process_selector(selector: Option<&ProcessSelector>) -> (r: Result<
    ProcessSelector,
    String,
>)
    ensures
        spec_validated_selector(
            match selector {
                Some(s) => Some(*s),
                None => None,
            },
            r,
        ),
{
    let s = match selector {
        Some(s) => s,
        None => {
            return Err(String::from_str("process selector is missing"));
        },
    };
    let name = normalize_selector_text(s.name.as_ref());
    let executable = normalize_selector_text(s.executable.as_ref());
    let cmdline_contains = normalize_selector_text(s.cmdline_contains.as_ref());

    if s.pid.is_none() && name.is_none() {
        return Err(String::from_str("process selector is empty"));
    }

    let shell_like = match &name {
        Some(n) => is_shell_like_process_name(n.as_str()),
        None => false,
    };
    let has_advanced = executable.is_some() || cmdline_contains.is_some();
    if shell_like && !has_advanced {
        return Err(
            String::from_str(
                "shell 계열 프로세스는 오탐 방지를 위해 executable 또는 cmdlineContains가 필요합니다.",
            ),
        );
    }

    Ok(ProcessSelector { pid: s.pid, name, executable, cmdline_contains })
}

pub open spec fn spec_no_fail_open_prefix() -> Seq<char> {
    "NO_FAIL_OPEN_PROCESS_EXIT: process-exit selector invalid ("@
}

pub open spec fn spec_no_fail_open_suffix() -> Seq<char> {
    "); cancelled for safety"@
}

/// The reason recorded when a process-exit schedule is cancelled because its
/// selector became invalid: failing open on a shutdown trigger is not
/// acceptable, so the schedule is stopped instead.
pub fn no_fail_open_process_exit_reason(error: &str) -> (r: String)
    ensures
        r@ == spec_no_fail_open_prefix() + error@ + spec_no_fail_open_suffix(),
{
    let mut s = String::from_str("NO_FAIL_OPEN_PROCESS_EXIT: process-exit selector invalid (");
    s.append(error);
    s.append("); cancelled for safety");
    proof {
        assert(s@ =~= spec_no_fail_open_prefix() + error@ + spec_no_fail_open_suffix());
    }
    s
}

/// Clear every process-exit observation on the schedule after a selector
/// failure, so nothing stale can later argue for a shutdown.
pub fn reset_process_exit_on_selector_failure(active: &mut ActiveSchedule)
    ensures
        *final (active) == (ActiveSchedule {
            process_missing_since_ms: None,
            process_tree_pids: final (active).process_tree_pids,
            final_warning_started_at_ms: None,
            shutdown_initiated_at_ms: None,
            ..*old(active)
        }),
        final (active).process_tree_pids@ == Seq::<u32>::empty(),
{
    active.process_missing_since_ms = None;
    active.process_tree_pids.clear();
    active.final_warning_started_at_ms = None;
    active.shutdown_initiated_at_ms = None;
    proof {
        assert(final (active).process_tree_pids@ =~= Seq::<u32>::empty());
    }
}

} // verus!
