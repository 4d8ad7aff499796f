//! Rotated log files.

use rswebtwain::logging::{first_failure, is_iso_date, prune_old_logs, KEEP_DAYS};

/// A directory of files with these names, after pruning.
fn pruned(files: &[&str], prefix: &str, keep: usize) -> Vec<String> {
    let names: Vec<String> = files.iter().map(|name| name.to_string()).collect();
    let gone = prune_old_logs(&names, prefix, keep);
    let mut left: Vec<String> = names.into_iter().filter(|name| !gone.contains(name)).collect();
    left.sort();
    left
}

#[test]
fn logging_prune_keeps_newest_n_dated_files() {
    for prefix in ["agent.log", "sidecar.log"] {
        let mut files = Vec::new();
        for d in ["2026-04-25", "2026-04-26", "2026-04-27", "2026-04-28", "2026-04-29"] {
            files.push(format!("{prefix}.{d}"));
        }
        let files: Vec<&str> = files.iter().map(|s| s.as_str()).collect();
        assert_eq!(
            pruned(&files, prefix, 3),
            vec![
                format!("{prefix}.2026-04-27"),
                format!("{prefix}.2026-04-28"),
                format!("{prefix}.2026-04-29"),
            ]
        );
    }
}

#[test]
fn prune_no_op_when_fewer_than_keep() {
    let left = pruned(&["agent.log.2026-04-28", "agent.log.2026-04-29"], "agent.log", 5);
    assert_eq!(left.len(), 2);
}

#[test]
fn prune_ignores_non_matching_files() {
    let left = pruned(
        &[
            "agent.log.2026-04-28",
            "agent.log.2026-04-29",
            "agent.log.2026-04-30",
            "agent.log",              // active file, no date
            "sidecar.log.2026-04-28", // different prefix
            "agent.log.notadate",     // bad suffix
            "README.txt",             // unrelated
        ],
        "agent.log",
        1,
    );
    assert_eq!(
        left,
        vec![
            "README.txt".to_string(),
            "agent.log".to_string(),
            "agent.log.2026-04-30".to_string(),
            "agent.log.notadate".to_string(),
            "sidecar.log.2026-04-28".to_string(),
        ]
    );
}

#[test]
fn prune_empty_dir_is_ok() {
    assert_eq!(pruned(&[], "agent.log", 3), Vec::<String>::new());
}

#[test]
fn the_oldest_go_first_whatever_the_order_they_are_found_in() {
    let names: Vec<String> = ["2026-01-02", "2025-12-31", "2026-01-01", "2024-06-30"]
        .iter()
        .map(|d| format!("agent.log.{d}"))
        .collect();
    assert_eq!(
        prune_old_logs(&names, "agent.log", 1),
        vec!["agent.log.2024-06-30", "agent.log.2025-12-31", "agent.log.2026-01-01"]
    );
    assert_eq!(prune_old_logs(&names, "agent.log", 0).len(), 4);
    assert_eq!(KEEP_DAYS, 7);
}

#[test]
fn dates_are_told_by_their_shape() {
    assert!(is_iso_date("2026-04-25"));
    assert!(is_iso_date("9999-99-99"));
    for bad in ["", "2026-4-25", "2026/04/25", "2026-04-2x", "2026-04-255", "20260-4-25"] {
        assert!(!is_iso_date(bad), "{bad}");
    }
}

#[test]
fn the_first_failure_is_reported() {
    assert_eq!(first_failure::<u8>(vec![]), Ok(()));
    assert_eq!(first_failure::<u8>(vec![Ok(()), Ok(())]), Ok(()));
    assert_eq!(first_failure(vec![Ok(()), Err(2), Ok(()), Err(4)]), Err(2));
}
