use lambda_runtime_core::snapstart::{
    is_snapstart_env, restore_status_message, LifecycleAction, LifecycleError, LifecycleEvent, ReportKind,
    RestoreLifecycle,
};

/// Which lifecycle phase a resource fails in.
#[derive(Clone, Copy, PartialEq)]
enum Phase {
    Never,
    BeforeSnapshot,
    AfterRestore,
}

struct Resource {
    label: &'static str,
    fails_in: Phase,
}

/// What a driven lifecycle did.
struct Outcome {
    result: Result<(), LifecycleError<String>>,
    log: Vec<String>,
    restore_next_calls: usize,
    pool_resets: usize,
    /// The endpoint of each report and the message of the error reported.
    reports: Vec<(&'static str, String)>,
}

impl Outcome {
    fn ok(&self) -> bool {
        self.result.is_ok()
    }
}

/// The message of a lifecycle error, as the runtime turns it into an error.
fn message(err: &LifecycleError<String>) -> String {
    match err {
        LifecycleError::Hook(e) | LifecycleError::Transport(e) | LifecycleError::Unbuildable(e) => e.clone(),
        LifecycleError::Status(status) => restore_status_message(*status),
    }
}

/// Drives the lifecycle the way the runtime does, with `/restore/next`
/// answering `restore_status` (or failing in transport when `None`).
fn drive(resources: &[Resource], snapstart: bool, restore_status: Option<u16>) -> Outcome {
    let mut log = Vec::new();
    let mut restore_next_calls = 0;
    let mut pool_resets = 0;
    let mut reports = Vec::new();
    let (mut lifecycle, mut action) = RestoreLifecycle::<String>::start(resources.len(), snapstart);
    loop {
        let event = match action {
            LifecycleAction::RunBeforeSnapshot(i) => {
                log.push(format!("before:{}", resources[i].label));
                if resources[i].fails_in == Phase::BeforeSnapshot {
                    LifecycleEvent::HookFailed(format!("{} failed before the snapshot", resources[i].label))
                } else {
                    LifecycleEvent::HookSucceeded
                }
            }
            LifecycleAction::RequestRestoreNext => {
                restore_next_calls += 1;
                match restore_status {
                    Some(status) => LifecycleEvent::RestoreResponded(status),
                    None => LifecycleEvent::RestoreTransportFailed("connection refused".to_string()),
                }
            }
            LifecycleAction::ResetPool => {
                pool_resets += 1;
                LifecycleEvent::PoolReset
            }
            LifecycleAction::RunAfterRestore(i) => {
                log.push(format!("after:{}", resources[i].label));
                if resources[i].fails_in == Phase::AfterRestore {
                    LifecycleEvent::HookFailed(format!("{} failed after the restore", resources[i].label))
                } else {
                    LifecycleEvent::HookSucceeded
                }
            }
            LifecycleAction::Report(kind) => {
                let err = lifecycle.reporting_error().expect("a report has an error");
                reports.push((kind.endpoint(), message(err)));
                LifecycleEvent::ReportFinished
            }
            LifecycleAction::Complete(result) => {
                assert!(lifecycle.is_finished());
                return Outcome { result, log, restore_next_calls, pool_resets, reports };
            }
            LifecycleAction::Idle => panic!("the lifecycle stalled"),
        };
        (lifecycle, action) = lifecycle.step(event);
    }
}

fn recorder(label: &'static str) -> Resource {
    Resource { label, fails_in: Phase::Never }
}

#[test]
fn test_snapstart_restore_lifecycle_calls_restore_next() {
    let outcome = drive(&[recorder("pool")], true, Some(200));
    assert!(outcome.ok());
    assert_eq!(outcome.restore_next_calls, 1);
    assert_eq!(outcome.pool_resets, 1);
    assert_eq!(outcome.log, vec!["before:pool", "after:pool"]);
}

#[test]
fn test_snapstart_resource_ordering_is_lifo_then_fifo() {
    let resources = [recorder("credentials"), recorder("pool"), recorder("cache")];
    let outcome = drive(&resources, true, Some(200));
    assert!(outcome.ok());
    assert_eq!(
        outcome.log,
        vec![
            "before:cache",
            "before:pool",
            "before:credentials",
            "after:credentials",
            "after:pool",
            "after:cache",
        ]
    );
}

#[test]
fn test_snapstart_restore_next_non_success_is_fatal() {
    let outcome = drive(&[recorder("pool")], true, Some(500));
    assert!(!outcome.ok(), "expected non-success /restore/next to be fatal");
    assert_eq!(outcome.result, Err(LifecycleError::Status(500)));
    let text = "/restore/next returned a non-success status: 500 Internal Server Error".to_string();
    assert_eq!(outcome.reports, vec![("/init/error", text)]);
    assert_eq!(outcome.pool_resets, 0);
    assert_eq!(outcome.log, vec!["before:pool"]);
}

#[test]
fn test_snapstart_lifecycle_is_noop_when_not_snapstart() {
    let outcome = drive(&[recorder("pool")], false, Some(200));
    assert!(outcome.ok());
    assert_eq!(outcome.restore_next_calls, 0, "/restore/next must not be called when not snap-start");
    assert!(outcome.log.is_empty(), "no hooks should fire when not snap-start");
}

#[test]
fn test_before_snapshot_failure_reports_init_error() {
    let resources = [Resource { label: "failing", fails_in: Phase::BeforeSnapshot }];
    let outcome = drive(&resources, true, Some(200));
    assert!(!outcome.ok(), "before_snapshot failure must propagate");
    let text = "failing failed before the snapshot".to_string();
    assert_eq!(outcome.result, Err(LifecycleError::Hook(text.clone())));
    assert_eq!(outcome.reports, vec![("/init/error", text)]);
    assert_eq!(outcome.restore_next_calls, 0);
}

#[test]
fn test_after_restore_failure_reports_restore_error() {
    let resources = [Resource { label: "failing", fails_in: Phase::AfterRestore }];
    let outcome = drive(&resources, true, Some(200));
    assert!(!outcome.ok(), "after_restore failure must propagate");
    assert_eq!(outcome.restore_next_calls, 1);
    let text = "failing failed after the restore".to_string();
    assert_eq!(outcome.result, Err(LifecycleError::Hook(text.clone())));
    assert_eq!(outcome.reports, vec![("/restore/error", text)]);
}

#[test]
fn before_snapshot_failure_stops_the_remaining_teardown() {
    let resources = [recorder("credentials"), Resource { label: "pool", fails_in: Phase::BeforeSnapshot }, recorder("cache")];
    let outcome = drive(&resources, true, Some(200));
    assert_eq!(outcome.result, Err(LifecycleError::Hook("pool failed before the snapshot".to_string())));
    assert_eq!(outcome.log, vec!["before:cache", "before:pool"]);
}

#[test]
fn after_restore_failure_stops_the_remaining_rebuild() {
    let resources = [recorder("credentials"), Resource { label: "pool", fails_in: Phase::AfterRestore }, recorder("cache")];
    let outcome = drive(&resources, true, Some(204));
    assert!(!outcome.ok());
    assert_eq!(
        outcome.log,
        vec!["before:cache", "before:pool", "before:credentials", "after:credentials", "after:pool"]
    );
    assert_eq!(outcome.reports, vec![("/restore/error", "pool failed after the restore".to_string())]);
}

#[test]
fn restore_transport_failure_reports_init_error() {
    let outcome = drive(&[recorder("pool")], true, None);
    assert_eq!(outcome.result, Err(LifecycleError::Transport("connection refused".to_string())));
    assert_eq!(outcome.reports, vec![("/init/error", "connection refused".to_string())]);
    assert_eq!(outcome.pool_resets, 0);
}

#[test]
fn restore_without_resources_still_calls_restore_next() {
    let outcome = drive(&[], true, Some(200));
    assert!(outcome.ok());
    assert_eq!(outcome.restore_next_calls, 1);
    assert_eq!(outcome.pool_resets, 1);
}

#[test]
fn unbuildable_restore_request_fails_without_report() {
    let (lifecycle, first) = RestoreLifecycle::<String>::start(0, true);
    assert_eq!(first, LifecycleAction::RequestRestoreNext);
    let (lifecycle, action) = lifecycle.step(LifecycleEvent::RestoreRequestUnbuildable("bad uri".to_string()));
    assert_eq!(action, LifecycleAction::Complete(Err(LifecycleError::Unbuildable("bad uri".to_string()))));
    assert!(lifecycle.is_finished());
    assert!(lifecycle.reporting_error().is_none());
}

#[test]
fn unexpected_event_is_ignored() {
    let (lifecycle, _) = RestoreLifecycle::<String>::start(2, true);
    let (lifecycle, action) = lifecycle.step(LifecycleEvent::PoolReset);
    assert_eq!(action, LifecycleAction::Idle);
    assert_eq!(lifecycle.step(LifecycleEvent::HookSucceeded).1, LifecycleAction::RunBeforeSnapshot(0));
}

#[test]
fn restore_status_messages_name_the_status() {
    assert_eq!(restore_status_message(503), "/restore/next returned a non-success status: 503 Service Unavailable");
    assert_eq!(restore_status_message(404), "/restore/next returned a non-success status: 404 Not Found");
}

#[test]
fn snapstart_env_detection() {
    assert!(is_snapstart_env(Some("snap-start")));
    assert!(!is_snapstart_env(Some("on-demand")));
    assert!(!is_snapstart_env(Some("snap-start ")));
    assert!(!is_snapstart_env(None));
}

#[test]
fn report_endpoints() {
    assert_eq!(ReportKind::Init.endpoint(), "/init/error");
    assert_eq!(ReportKind::Restore.endpoint(), "/restore/error");
}
