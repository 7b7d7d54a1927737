use lambda_runtime_core::api_call::{ApiCall, ApiCallAction, ApiCallEvent, ApiLog};
use lambda_runtime_core::concurrency::{concurrency_limit, max_concurrency, polling_mode, pool_size, PollingMode};
use lambda_runtime_core::invocation::{concurrency_ignored_warning, loop_step, trace_env_update, warns_concurrency_ignored, LoopAction, LoopEvent, TraceEnvUpdate};
use lambda_runtime_core::workers::{WorkerError, WorkerSupervisor};

/// Runs one call: the request is built (or fails to build with `build_error`),
/// then the API answers with a status and body, or the transport fails.
fn call(
    build_error: Option<&str>,
    answer: Result<(u16, &str), &str>,
) -> (ApiCallAction<String>, Vec<&'static str>) {
    let mut call = ApiCall::new();
    let mut lines = Vec::new();
    if let Some(e) = build_error {
        let (action, logs) = call.step(ApiCallEvent::RequestBuildFailed(e.to_string()));
        lines.extend(logs.iter().map(|l| l.message()));
        return (action, lines);
    }
    let (action, logs) = call.step(ApiCallEvent::<String>::RequestBuilt);
    assert_eq!(action, ApiCallAction::Send);
    assert!(logs.is_empty());
    let event = match answer {
        Ok((status, body)) => ApiCallEvent::Responded(status, body.to_string()),
        Err(e) => ApiCallEvent::TransportFailed(e.to_string()),
    };
    let (action, logs) = call.step(event);
    lines.extend(logs.iter().map(|l| l.message()));
    (action, lines)
}

#[test]
fn test_successful_response() {
    let (action, lines) = call(None, Ok((200, "")));
    assert_eq!(action, ApiCallAction::Finish(Ok(())));
    assert!(!lines.contains(&"Lambda Runtime API returned non-200 response"));
}

#[test]
fn test_410_timeout_error() {
    let (action, lines) = call(None, Ok((410, "")));
    assert_eq!(action, ApiCallAction::Finish(Ok(())));
    assert!(lines.contains(&"Lambda Runtime API returned non-200 response"));
    assert!(lines.contains(&"Lambda function timeout!"));
}

#[test]
fn test_500_error() {
    let (action, lines) = call(None, Ok((500, "")));
    assert_eq!(action, ApiCallAction::Finish(Ok(())));
    assert!(lines.contains(&"Lambda Runtime API returned non-200 response"));
    assert!(!lines.contains(&"Lambda function timeout!"));
}

#[test]
fn test_404_error() {
    let (action, lines) = call(None, Ok((404, "")));
    assert_eq!(action, ApiCallAction::Finish(Ok(())));
    assert!(lines.contains(&"Lambda Runtime API returned non-200 response"));
}

#[test]
fn test_request_build_error() {
    let (action, lines) = call(Some("Request build error"), Ok((200, "")));
    match action {
        ApiCallAction::Finish(Err(e)) => assert!(e.to_string().contains("Request build error")),
        other => panic!("expected a failed call, got {:?}", other),
    }
    assert!(lines.contains(&"failed to build Lambda Runtime API request"));
}

#[test]
fn test_network_error() {
    let (action, lines) = call(None, Err("connection refused"));
    assert_eq!(action, ApiCallAction::Finish(Err("connection refused".to_string())));
    assert!(lines.contains(&"failed to send request to Lambda Runtime API"));
    assert!(lines.contains(&"Lambda Runtime API request failed"));
}

#[test]
fn status_logs_carry_the_status_and_body() {
    let mut c = ApiCall::new();
    c.step(ApiCallEvent::<String>::RequestBuilt);
    let (_, logs) = c.step(ApiCallEvent::<String>::Responded(503, "try later".to_string()));
    assert_eq!(logs, vec![ApiLog::NonSuccessStatus(503, "try later".to_string())]);
    assert_eq!(c.step(ApiCallEvent::<String>::Responded(200, String::new())).0, ApiCallAction::Idle);
}

#[test]
fn gone_logs_the_body_then_the_timeout() {
    let mut c = ApiCall::new();
    c.step(ApiCallEvent::<String>::RequestBuilt);
    let (action, logs) = c.step(ApiCallEvent::<String>::Responded(410, "expired".to_string()));
    assert_eq!(action, ApiCallAction::Finish(Ok(())));
    assert_eq!(logs, vec![ApiLog::NonSuccessStatus(410, "expired".to_string()), ApiLog::FunctionTimeout]);
}

#[test]
fn concurrent_worker_crash_does_not_stop_other_workers() {
    let mut supervisor = WorkerSupervisor::new(2);
    assert_eq!(supervisor.workers_to_spawn(), 2);
    supervisor.record_exit(WorkerError::Failure("1".to_string(), "worker panicked".to_string()));
    assert!(!supervisor.all_exited(), "expected remaining worker to keep running after a worker crash");
    assert_eq!(supervisor.remaining(), 1);
    supervisor.record_exit(WorkerError::CleanExit("2".to_string()));
    assert!(supervisor.all_exited(), "expected runtime to terminate once all workers crashed");
    let errors = supervisor.finish().expect_err("all workers exited");
    assert_eq!(errors.errors().len(), 2);
    let payload = errors.payload();
    assert_eq!(payload.message, "concurrent workers exited unexpectedly");
    assert_eq!(payload.clean, vec!["2".to_string()]);
    assert_eq!(payload.failures.len(), 1);
    assert_eq!(payload.failures[0].id, "1");
    assert_eq!(payload.failures[0].err, "worker panicked");
}

#[test]
fn all_clean_exits_get_their_own_message() {
    let mut supervisor = WorkerSupervisor::new(3);
    for id in ["7", "8", "9"] {
        supervisor.record_exit(WorkerError::CleanExit(id.to_string()));
    }
    let payload = supervisor.finish().unwrap_err().payload();
    assert_eq!(
        payload.message,
        "all concurrent workers exited cleanly (unexpected - loop should run forever)"
    );
    assert_eq!(payload.clean, vec!["7".to_string(), "8".to_string(), "9".to_string()]);
    assert!(payload.failures.is_empty());
}

#[test]
fn supervisor_without_exits_finishes_ok() {
    let supervisor = WorkerSupervisor::new(1);
    assert!(!supervisor.all_exited());
    assert!(supervisor.finish().is_ok());
}

#[test]
fn extra_exit_saturates() {
    let mut supervisor = WorkerSupervisor::new(1);
    supervisor.record_exit(WorkerError::CleanExit("1".to_string()));
    supervisor.record_exit(WorkerError::CleanExit("2".to_string()));
    assert_eq!(supervisor.remaining(), 0);
}

#[test]
fn max_concurrency_parsing() {
    assert_eq!(max_concurrency(None), None);
    assert_eq!(max_concurrency(Some("4")), Some(4));
    assert_eq!(max_concurrency(Some("+4")), Some(4));
    assert_eq!(max_concurrency(Some("0")), None);
    assert_eq!(max_concurrency(Some("-1")), None);
    assert_eq!(max_concurrency(Some(" 4")), None);
    assert_eq!(max_concurrency(Some("")), None);
    assert_eq!(max_concurrency(Some("4294967295")), Some(u32::MAX));
    assert_eq!(max_concurrency(Some("4294967296")), None);
    assert_eq!(max_concurrency(Some("99999999999x")), None);
    assert_eq!(max_concurrency(Some("007")), Some(7));
    assert_eq!(max_concurrency(Some("+")), None);
    assert_eq!(max_concurrency(Some("++4")), None);
    assert_eq!(max_concurrency(Some("4\u{663}")), None);
}

#[test]
fn concurrency_limit_defaults_to_one() {
    assert_eq!(concurrency_limit(None), 1);
    assert_eq!(concurrency_limit(Some("abc")), 1);
    assert_eq!(concurrency_limit(Some("0")), 1);
    assert_eq!(concurrency_limit(Some("8")), 8);
    assert_eq!(pool_size(8), 8);
    assert_eq!(polling_mode(1), PollingMode::Sequential);
    assert_eq!(polling_mode(2), PollingMode::Concurrent);
}

#[test]
fn loop_decisions() {
    assert_eq!(loop_step(PollingMode::Sequential, false, LoopEvent::NextEventFailed), LoopAction::Stop);
    assert_eq!(loop_step(PollingMode::Concurrent, false, LoopEvent::NextEventFailed), LoopAction::Retry);
    assert_eq!(loop_step(PollingMode::Sequential, true, LoopEvent::NextEventReceived(204)), LoopAction::Skip);
    assert_eq!(
        loop_step(PollingMode::Sequential, false, LoopEvent::NextEventReceived(204)),
        LoopAction::Process { set_trace_env: true }
    );
    assert_eq!(
        loop_step(PollingMode::Concurrent, true, LoopEvent::NextEventReceived(200)),
        LoopAction::Process { set_trace_env: false }
    );
    assert_eq!(loop_step(PollingMode::Concurrent, false, LoopEvent::InvocationFailed), LoopAction::Stop);
    assert_eq!(loop_step(PollingMode::Concurrent, false, LoopEvent::InvocationSucceeded), LoopAction::Continue);
}

#[test]
fn trace_env_and_warning() {
    assert_eq!(trace_env_update(Some("Root=1-abc")), TraceEnvUpdate::Assign("Root=1-abc".to_string()));
    assert_eq!(trace_env_update(None), TraceEnvUpdate::Remove);
    assert!(warns_concurrency_ignored(Some("4")));
    assert!(!warns_concurrency_ignored(None));
}

#[test]
fn concurrency_warning_quotes_the_raw_value() {
    assert_eq!(
        concurrency_ignored_warning(Some("1")).as_deref(),
        Some("AWS_LAMBDA_MAX_CONCURRENCY is set to '1', but the concurrency-tokio feature is not enabled; running sequentially")
    );
    assert_eq!(
        concurrency_ignored_warning(Some("abc")).as_deref(),
        Some("AWS_LAMBDA_MAX_CONCURRENCY is set to 'abc', but the concurrency-tokio feature is not enabled; running sequentially")
    );
    assert_eq!(concurrency_ignored_warning(None), None);
}
