use cargo_android::deploy::{
    adb_push_args, adb_remove_all_args, adb_run_args, is_file, partition, partition_flexible,
    path_of_device, preflight, Action, Deploy, Phase,
};
use cargo_android::{RunError, Step};

fn strings(items: &[&str]) -> Vec<String> {
    items.iter().map(|s| s.to_string()).collect()
}

#[test]
fn partition_takes_first_as_sole_file() {
    let args = strings(&["b.bin", "x", "y"]);
    let (files, rest) = partition(&args);
    assert_eq!(files, strings(&["b.bin"]));
    assert_eq!(rest, strings(&["x", "y"]));
}

#[test]
fn flexible_partition_splits_on_separator() {
    let args = strings(&["a.so", "b.bin", "--", "x", "y"]);
    let (files, rest) = partition_flexible(&args);
    assert_eq!(files, strings(&["a.so", "b.bin"]));
    assert_eq!(rest, strings(&["x", "y"]));
}

#[test]
fn flexible_partition_without_separator_takes_all_as_files() {
    let args = strings(&["b.bin", "x", "y"]);
    let (files, rest) = partition_flexible(&args);
    assert_eq!(files, strings(&["b.bin", "x", "y"]));
    assert!(rest.is_empty());
}

#[test]
fn flexible_partition_with_leading_separator() {
    let args = strings(&["--", "x"]);
    let (files, rest) = partition_flexible(&args);
    assert!(files.is_empty());
    assert_eq!(rest, strings(&["x"]));
}

#[test]
fn device_path_joins_staging_dir_and_base_name() {
    assert_eq!(path_of_device("/home/u/target/release/app"), "/data/local/tmp/app");
    assert_eq!(path_of_device("app"), "/data/local/tmp/app");
    assert_eq!(path_of_device("./rel/bin"), "/data/local/tmp/bin");
}

#[test]
fn preflight_reports_each_missing_prerequisite() {
    let files = strings(&["a.bin"]);
    assert_eq!(preflight(true, &files, true), Ok(()));
    assert_eq!(preflight(false, &files, true), Err(RunError::BridgeNotFound));
    assert_eq!(preflight(true, &files, false), Err(RunError::FileNotFound));
    assert_eq!(preflight(true, &strings(&[]), true), Err(RunError::FileNotFound));
}

#[test]
fn is_file_checks_the_filesystem() {
    // the root directory exists but is no regular file
    assert!(!is_file("/"));
    assert!(!is_file("no/such/file/anywhere"));
}

#[test]
fn push_invocation_targets_staging_dir() {
    let v = adb_push_args("/home/u/a.so");
    assert_eq!(v, strings(&["push", "/home/u/a.so", "/data/local/tmp/"]));
}

#[test]
fn remove_all_invocation_clears_staging_dir() {
    let v = adb_remove_all_args();
    assert_eq!(v, strings(&["shell", "sh -c 'rm -rf /data/local/tmp/*'"]));
}

#[test]
fn run_invocation_wraps_the_remote_command() {
    let v = adb_run_args("/data/local/tmp/app", &strings(&["x", "y"]));
    assert_eq!(
        v,
        strings(&[
            "shell",
            "cd /data/local/tmp/",
            "&& chmod 777",
            "/data/local/tmp/app",
            "&& time sh -c 'LD_LIBRARY_PATH=/data/local/tmp RUST_BACKTRACE=full",
            "/data/local/tmp/app",
            "x",
            "y",
            "; echo \"============================\n[exit status:($?)]\" 1>&2'",
        ])
    );
}

#[test]
fn deployment_runs_push_run_cleanup_in_order() {
    let mut d = Deploy::new(strings(&["a.so", "b.bin"]));
    assert!(matches!(d.action(), Action::PushFile { index: 0 }));
    d.advance(true);
    assert!(matches!(d.action(), Action::PushFile { index: 1 }));
    d.advance(true);
    assert!(matches!(d.action(), Action::RunPrimary));
    d.advance(true);
    assert!(matches!(d.action(), Action::RemoveAll));
    d.advance(true);
    assert!(matches!(d.action(), Action::Done));
    match d.phase {
        Phase::Finished { report } => {
            assert!(report.failure.is_none());
            assert!(report.cleanup.is_none());
        }
        _ => panic!("deployment did not finish"),
    }
}

#[test]
fn cleanup_still_runs_when_execution_fails() {
    let mut d = Deploy::new(strings(&["a.so"]));
    d.advance(true);
    assert!(matches!(d.action(), Action::RunPrimary));
    d.advance(false);
    // the failed run leads to the cleanup action, not straight to the end
    assert!(matches!(d.action(), Action::RemoveAll));
    d.advance(true);
    match d.phase {
        Phase::Finished { report } => {
            assert_eq!(report.failure, Some(RunError::SubprocessFailed { step: Step::Run }));
            assert_eq!(report.cleanup, None);
        }
        _ => panic!("deployment did not finish"),
    }
}

#[test]
fn cleanup_failure_is_reported_beside_run_failure() {
    let mut d = Deploy::new(strings(&["a.so"]));
    d.advance(true);
    d.advance(false);
    assert!(matches!(d.action(), Action::RemoveAll));
    d.advance(false);
    match d.phase {
        Phase::Finished { report } => {
            assert_eq!(report.failure, Some(RunError::SubprocessFailed { step: Step::Run }));
            assert_eq!(report.cleanup, Some(RunError::SubprocessFailed { step: Step::Cleanup }));
        }
        _ => panic!("deployment did not finish"),
    }
}

#[test]
fn push_failure_also_leads_to_cleanup() {
    let mut d = Deploy::new(strings(&["a.so", "b.bin"]));
    d.advance(false);
    assert!(matches!(d.action(), Action::RemoveAll));
    d.advance(true);
    match d.phase {
        Phase::Finished { report } => {
            assert_eq!(report.failure, Some(RunError::SubprocessFailed { step: Step::Push }));
            assert_eq!(report.cleanup, None);
        }
        _ => panic!("deployment did not finish"),
    }
}
