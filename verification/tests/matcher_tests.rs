use autosd::matcher::ProcessMatchSource;
use autosd::matcher::ProcessRecord;
use autosd::matcher::build_children_index;
use autosd::matcher::collect_tree_from_index;
use autosd::matcher::is_process_running;
use autosd::matcher::process_match_source_label;
use autosd::matcher::snapshot_pids;
use autosd::selector::is_shell_like_process_name;
use autosd::selector::normalize_and_validate_process_selector;
use autosd::selector::normalize_selector_path;
use autosd::selector::normalize_selector_text;
use autosd::types::ProcessSelector;

fn record(pid: u32, parent: Option<u32>, name: &str) -> ProcessRecord {
    ProcessRecord {
        pid,
        parent,
        name: name.to_string(),
        exe: None,
        cmdline: Vec::new(),
    }
}

#[test]
fn collect_tree_from_index_deduplicates_and_visits_descendants() {
    let index: Vec<(u32, Vec<u32>)> = vec![
        (10, vec![11, 12]),
        (11, vec![13]),
        (12, vec![13]),
    ];
    let alive: Vec<u32> = vec![10, 11, 12, 13];

    let collected = collect_tree_from_index(10, &index, &alive);

    assert_eq!(collected, vec![10, 11, 12, 13]);
}

#[test]
fn collect_tree_skips_dead_branches_and_dead_roots() {
    let index: Vec<(u32, Vec<u32>)> = vec![(10, vec![11]), (11, vec![12])];
    assert_eq!(collect_tree_from_index(10, &index, &vec![10, 12]), vec![10]);
    assert!(collect_tree_from_index(10, &index, &vec![11, 12]).is_empty());
}

#[test]
fn pid_tree_layer_tracks_live_descendants() {
    let snapshot = vec![
        record(100, None, "game"),
        record(101, Some(100), "worker"),
        record(102, Some(101), "helper"),
        record(300, None, "other"),
    ];
    let selector = ProcessSelector {
        pid: Some(100),
        name: None,
        executable: None,
        cmdline_contains: None,
    };

    let result = is_process_running(&selector, &Vec::new(), &snapshot);
    assert!(result.running);
    assert_eq!(result.source, ProcessMatchSource::PidTree);
    assert_eq!(result.matched_pids, vec![100, 101, 102]);
    assert!(!result.degraded_to_name);

    let index = build_children_index(&snapshot);
    assert_eq!(collect_tree_from_index(100, &index, &snapshot_pids(&snapshot)), vec![
        100, 101, 102,
    ]);
}

#[test]
fn tracked_pids_survive_after_root_exits() {
    let snapshot = vec![record(101, None, "worker")];
    let selector = ProcessSelector {
        pid: Some(100),
        name: None,
        executable: None,
        cmdline_contains: None,
    };

    let result = is_process_running(&selector, &vec![100, 101], &snapshot);
    assert!(result.running);
    assert_eq!(result.source, ProcessMatchSource::TrackedPids);
    assert_eq!(result.matched_pids, vec![101]);
}

#[test]
fn advanced_match_compares_normalized_paths_and_cmdline() {
    let mut editor = record(200, None, "editor");
    editor.exe = Some("C:\\Tools\\Editor.EXE".to_string());
    editor.cmdline = vec!["editor".to_string(), "--file".to_string(), "Notes.TXT".to_string()];
    let snapshot = vec![record(50, None, "shell"), editor];

    let selector = ProcessSelector {
        pid: None,
        name: Some("editor".to_string()),
        executable: Some("  c:/tools/editor.exe ".to_string()),
        cmdline_contains: Some(" --FILE ".to_string()),
    };

    let result = is_process_running(&selector, &Vec::new(), &snapshot);
    assert!(result.running);
    assert_eq!(result.source, ProcessMatchSource::Advanced);
    assert_eq!(result.matched_pids, vec![200]);
    assert!(!result.degraded_to_name);
}

#[test]
fn name_fallback_is_degraded_when_advanced_data_is_missing() {
    let snapshot = vec![record(7, None, "MyTool")];
    let selector = ProcessSelector {
        pid: None,
        name: Some("mytool".to_string()),
        executable: Some("/usr/bin/mytool".to_string()),
        cmdline_contains: None,
    };

    let result = is_process_running(&selector, &Vec::new(), &snapshot);
    assert!(result.running);
    assert_eq!(result.source, ProcessMatchSource::NameFallback);
    assert_eq!(result.matched_pids, vec![7]);
    assert!(result.degraded_to_name);
}

#[test]
fn bare_shell_name_never_matches_by_name() {
    let snapshot = vec![record(7, None, "bash")];
    let selector = ProcessSelector {
        pid: None,
        name: Some("bash".to_string()),
        executable: None,
        cmdline_contains: None,
    };

    let result = is_process_running(&selector, &Vec::new(), &snapshot);
    assert!(!result.running);
    assert_eq!(result.source, ProcessMatchSource::NoMatch);
    assert!(result.matched_pids.is_empty());
}

#[test]
fn match_source_labels_are_stable() {
    assert_eq!(process_match_source_label(ProcessMatchSource::PidTree), "pidTree");
    assert_eq!(process_match_source_label(ProcessMatchSource::TrackedPids), "trackedPids");
    assert_eq!(process_match_source_label(ProcessMatchSource::Advanced), "advanced");
    assert_eq!(process_match_source_label(ProcessMatchSource::NameFallback), "nameFallback");
    assert_eq!(process_match_source_label(ProcessMatchSource::NoMatch), "none");
}

#[test]
fn process_selector_validation_rejects_missing_or_empty_selector() {
    assert_eq!(
        normalize_and_validate_process_selector(None).unwrap_err(),
        "process selector is missing"
    );

    let empty = ProcessSelector {
        pid: None,
        name: Some("   ".to_string()),
        executable: None,
        cmdline_contains: None,
    };
    assert_eq!(
        normalize_and_validate_process_selector(Some(&empty)).unwrap_err(),
        "process selector is empty"
    );
}

#[test]
fn process_selector_validation_rejects_shell_name_without_advanced_match() {
    let selector = ProcessSelector {
        pid: None,
        name: Some("powershell".to_string()),
        executable: None,
        cmdline_contains: None,
    };

    let error = normalize_and_validate_process_selector(Some(&selector)).unwrap_err();
    assert!(error.contains("shell 계열 프로세스"));
}

#[test]
fn process_selector_validation_accepts_and_normalizes_valid_selector() {
    let selector = ProcessSelector {
        pid: Some(1234),
        name: Some("  pwsh ".to_string()),
        executable: Some("  C:\\\\Windows\\\\System32\\\\pwsh.exe ".to_string()),
        cmdline_contains: Some("  -File ".to_string()),
    };

    let normalized = normalize_and_validate_process_selector(Some(&selector))
        .expect("selector should be valid");
    assert_eq!(normalized.pid, Some(1234));
    assert_eq!(normalized.name.as_deref(), Some("pwsh"));
    assert_eq!(
        normalized.executable.as_deref(),
        Some("C:\\\\Windows\\\\System32\\\\pwsh.exe")
    );
    assert_eq!(normalized.cmdline_contains.as_deref(), Some("-File"));
}

#[test]
fn shell_like_names_are_detected_case_insensitively() {
    assert!(is_shell_like_process_name("PowerShell"));
    assert!(is_shell_like_process_name("pwsh"));
    assert!(is_shell_like_process_name("bash"));
    assert!(is_shell_like_process_name("/usr/bin/bash"));
    assert!(is_shell_like_process_name("ZSH"));
    assert!(is_shell_like_process_name("sh"));
    assert!(!is_shell_like_process_name("bashful"));
    assert!(!is_shell_like_process_name("fish"));
}

#[test]
fn selector_text_and_path_normalization() {
    assert_eq!(normalize_selector_text(Some(&"  x  ".to_string())), Some("x".to_string()));
    assert_eq!(normalize_selector_text(Some(&"   ".to_string())), None);
    assert_eq!(normalize_selector_text(None), None);
    assert_eq!(
        normalize_selector_path(Some(&" C:\\Apps\\Tool.EXE ".to_string())),
        Some("c:/apps/tool.exe".to_string())
    );
}
