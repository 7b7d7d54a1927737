//! The decisions of the event loops: what to do with the answer of
//! `/invocation/next` and with the outcome of an invocation.
//!
//! The sequential loop stops at the first failure to fetch an event; a
//! concurrent worker retries instead, so one flaky poll does not take a worker
//! down. Both stop when processing an invocation fails in the runtime itself
//! (handler errors are reported to Lambda and do not stop anything).

use vstd::prelude::*;
use crate::concurrency::PollingMode;

verus! {

/// What happened in the loop.
#[derive(Debug, Clone, Copy, PartialEq, Eq, Structural)]
pub enum LoopEvent {
    /// `/invocation/next` could not be fetched.
    NextEventFailed,
    /// `/invocation/next` answered with this status.
    NextEventReceived(u16),
    /// The invocation was processed.
    InvocationSucceeded,
    /// Processing the invocation failed in the runtime.
    InvocationFailed,
}

/// What the loop does next.
#[derive(Debug, Clone, Copy, PartialEq, Eq, Structural)]
pub enum LoopAction {
    /// Poll `/invocation/next` again.
    Retry,
    /// Ignore this event and poll again (`204 No Content` in debug builds,
    /// which keeps a local runtime alive when no event is pending).
    Skip,
    /// Process the invocation; set `_X_AMZN_TRACE_ID` from its context first
    /// when `set_trace_env` (only the sequential loop may touch the process
    /// environment).
    Process { set_trace_env: bool },
    /// Poll for the next event.
    Continue,
    /// Stop the loop with the error that occurred.
    Stop,
}

/// The decision of the loop for an event.
pub open spec fn spec_loop_step(mode: PollingMode, debug_build: bool, event: LoopEvent) -> LoopAction {
    match event {
        LoopEvent::NextEventFailed => match mode {
            PollingMode::Sequential => LoopAction::Stop,
            PollingMode::Concurrent => LoopAction::Retry,
        },
        LoopEvent::NextEventReceived(status) => if debug_build && status == 204 {
            LoopAction::Skip
        } else {
            LoopAction::Process { set_trace_env: mode == PollingMode::Sequential }
        },
        LoopEvent::InvocationSucceeded => LoopAction::Continue,
        LoopEvent::InvocationFailed => LoopAction::Stop,
    }
}

/// Decides what the loop does next.
pub fn loop_step(mode: PollingMode, debug_build: bool, event: LoopEvent) -> (r: LoopAction)
    ensures
        r == spec_loop_step(mode, debug_build, event),
{
    match event {
        LoopEvent::NextEventFailed => match mode {
            PollingMode::Sequential => LoopAction::Stop,
            PollingMode::Concurrent => LoopAction::Retry,
        },
        LoopEvent::NextEventReceived(status) => if debug_build && status == 204 {
            LoopAction::Skip
        } else {
            LoopAction::Process {
                set_trace_env: match mode {
                    PollingMode::Sequential => true,
                    PollingMode::Concurrent => false,
                },
            }
        },
        LoopEvent::InvocationSucceeded => LoopAction::Continue,
        LoopEvent::InvocationFailed => LoopAction::Stop,
    }
}

/// How `_X_AMZN_TRACE_ID` is updated for an invocation.
#[derive(Debug, Clone, PartialEq, Eq)]
pub enum TraceEnvUpdate {
    /// Set it to this trace id.
    Assign(String),
    /// Remove it: the invocation has no trace id.
    Remove,
}

/// The update of `_X_AMZN_TRACE_ID` for an invocation with this X-Ray trace id.
pub fn trace_env_update(trace_id: Option<&str>) -> (r: TraceEnvUpdate)
    ensures
        trace_id matches Some(t) ==> r matches TraceEnvUpdate::Assign(s) && s@ == t@,
        trace_id is None ==> r == TraceEnvUpdate::Remove,
{
    match trace_id {
        Some(t) => TraceEnvUpdate::Assign(t.to_owned()),
        None => TraceEnvUpdate::Remove,
    }
}

/// Whether the sequential `run` warns that `AWS_LAMBDA_MAX_CONCURRENCY` is
/// ignored: exactly when the variable is set.
pub fn warns_concurrency_ignored(max_concurrency: Option<&str>) -> (r: bool)
    ensures
        r == max_concurrency is Some,
{
    max_concurrency.is_some()
}

/// The warning of the sequential `run` when `AWS_LAMBDA_MAX_CONCURRENCY` is set
/// to `raw`.
pub open spec fn spec_concurrency_ignored_warning(raw: Seq<char>) -> Seq<char> {
    "AWS_LAMBDA_MAX_CONCURRENCY is set to '"@ + raw
        + "', but the concurrency-tokio feature is not enabled; running sequentially"@
}

/// The warning the sequential `run` gives, from the raw value of
/// `AWS_LAMBDA_MAX_CONCURRENCY` (`None` when unset): none when the variable is
/// unset, and otherwise one that quotes the raw value, whatever it is.
pub fn concurrency_ignored_warning(max_concurrency: Option<&str>) -> (r: Option<String>)
    ensures
        r is Some <==> max_concurrency is Some,
        r matches Some(m) ==> max_concurrency matches Some(raw)
            && m@ == spec_concurrency_ignored_warning(raw@),
{
    if !warns_concurrency_ignored(max_concurrency) {
        return None;
    }
    match max_concurrency {
        Some(raw) => {
            let m = "AWS_LAMBDA_MAX_CONCURRENCY is set to '".to_owned().concat(raw)
                .concat("', but the concurrency-tokio feature is not enabled; running sequentially");
            Some(m)
        },
        None => None,
    }
}

/// Law: a concurrent worker survives any number of failed polls, while the
/// sequential loop stops at the first one; a failure to process an invocation
/// stops either.
pub proof fn lemma_worker_survives_poll_failures(debug_build: bool)
    ensures
        spec_loop_step(PollingMode::Concurrent, debug_build, LoopEvent::NextEventFailed) == LoopAction::Retry,
        spec_loop_step(PollingMode::Sequential, debug_build, LoopEvent::NextEventFailed) == LoopAction::Stop,
        spec_loop_step(PollingMode::Concurrent, debug_build, LoopEvent::InvocationFailed) == LoopAction::Stop,
        spec_loop_step(PollingMode::Sequential, debug_build, LoopEvent::InvocationFailed) == LoopAction::Stop,
{
}

/// Law: only the sequential loop touches the process environment; concurrent
/// workers rely on each invocation's own context.
pub proof fn lemma_concurrent_never_sets_trace_env(debug_build: bool, status: u16)
    ensures
        spec_loop_step(PollingMode::Concurrent, debug_build, LoopEvent::NextEventReceived(status))
            != (LoopAction::Process { set_trace_env: true }),
{
}

/// Law: whatever the polling mode and build, an invocation processed
/// successfully leads the loop to poll for the next event; only a failure to
/// process one stops either loop.
pub proof fn lemma_success_polls_next(mode: PollingMode, debug_build: bool)
    ensures
        spec_loop_step(mode, debug_build, LoopEvent::InvocationSucceeded) == LoopAction::Continue,
        spec_loop_step(mode, debug_build, LoopEvent::InvocationFailed) == LoopAction::Stop,
{
}

/// Law: an event from `/invocation/next` is processed, except for a
/// `204 No Content` in a debug build, which is skipped; only the sequential
/// loop sets `_X_AMZN_TRACE_ID` first.
pub proof fn lemma_events_are_processed(mode: PollingMode, debug_build: bool, status: u16)
    ensures
        !(debug_build && status == 204) ==> spec_loop_step(mode, debug_build, LoopEvent::NextEventReceived(status))
            == (LoopAction::Process { set_trace_env: mode is Sequential }),
        debug_build && status == 204 ==> spec_loop_step(mode, debug_build, LoopEvent::NextEventReceived(status))
            == LoopAction::Skip,
{
}

} // verus!
