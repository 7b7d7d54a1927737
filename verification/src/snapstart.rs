//! The SnapStart restore lifecycle.
//!
//! Registered resources are torn down before the snapshot in reverse
//! registration order (LIFO) and rebuilt after the restore in registration
//! order (FIFO). A failure before the restore is reported to Lambda through
//! `/init/error`, a failure after it through `/restore/error`; either way the
//! lifecycle ends with the error that occurred (the hook's or the transport's
//! own, or one that names the status `/restore/next` answered with).
//!
//! The lifecycle is a state machine: [`RestoreLifecycle::step`] takes the
//! outcome of the last action and gives the next action. Whoever drives it
//! runs the hooks and talks to the Runtime API.

use vstd::prelude::*;

verus! {

/// The value `AWS_LAMBDA_INITIALIZATION_TYPE` has when SnapStart is enabled.
pub open spec fn snapstart_marker() -> Seq<char> {
    "snap-start"@
}

/// Whether two strings hold the same characters.
pub fn str_equal(a: &str, b: &str) -> (r: bool)
    ensures
        r == (a@ == b@),
{
    let n = a.unicode_len();
    if n != b.unicode_len() {
        return false;
    }
    let mut i: usize = 0;
    while i < n
        invariant
            n == a@.len(),
            n == b@.len(),
            i <= n,
            forall|j: int| 0 <= j < i ==> a@[j] == b@[j],
        decreases n - i,
    {
        if a.get_char(i) != b.get_char(i) {
            return false;
        }
        i = i + 1;
    }
    assert(a@ =~= b@);
    true
}

/// SnapStart is enabled exactly when the initialization type is `snap-start`.
pub open spec fn spec_is_snapstart(initialization_type: Option<Seq<char>>) -> bool {
    initialization_type == Some(snapstart_marker())
}

/// Whether SnapStart is enabled, given the raw value of
/// `AWS_LAMBDA_INITIALIZATION_TYPE` (`None` when unset).
pub fn is_snapstart_env(initialization_type: Option<&str>) -> (r: bool)
    ensures
        r == spec_is_snapstart(crate::concurrency::opt_str_view(initialization_type)),
{
    match initialization_type {
        Some(s) => str_equal(s, "snap-start"),
        None => false,
    }
}

/// Whether an HTTP status code is a success (`200..=299`), as
/// `http::StatusCode::is_success` defines it.
pub open spec fn spec_is_success(status: u16) -> bool {
    200 <= status && status < 300
}

/// Whether an HTTP status code is a success (`200..=299`).
pub fn is_success(status: u16) -> (r: bool)
    ensures
        r == spec_is_success(status),
{
    200 <= status && status < 300
}

/// The Runtime API endpoint an error is reported to.
#[derive(Debug, Clone, Copy, PartialEq, Eq, Structural)]
pub enum ReportKind {
    /// A failure during init (a `before_snapshot` hook or `/restore/next`): `/init/error`.
    Init,
    /// A failure in an `after_restore` hook: `/restore/error`.
    Restore,
}

/// The endpoint path of a report.
pub open spec fn spec_report_endpoint(kind: ReportKind) -> Seq<char> {
    match kind {
        ReportKind::Init => "/init/error"@,
        ReportKind::Restore => "/restore/error"@,
    }
}

impl ReportKind {
    /// The Runtime API path the report is posted to.
    pub fn endpoint(&self) -> (r: &'static str)
        ensures
            r@ == spec_report_endpoint(*self),
    {
        match self {
            ReportKind::Init => "/init/error",
            ReportKind::Restore => "/restore/error",
        }
    }
}

/// How `http::StatusCode` displays a status (its number and canonical reason).
pub uninterp spec fn spec_status_display(status: u16) -> Seq<char>;

/// The text of `http::StatusCode::from_u16(status)` through its `Display`
/// impl: the code followed by its canonical reason. The contract only names
/// the text; its exact form is left to the `http` crate.
#[verifier::external_body]
fn status_display(status: u16) -> (r: String)
    requires
        100 <= status <= 999,
    ensures
        r@ == spec_status_display(status),
{
    match http::StatusCode::from_u16(status) {
        Ok(code) => code.to_string(),
        Err(_) => String::new(),
    }
}

/// The message of the error a non-success `/restore/next` status ends the
/// lifecycle with.
pub open spec fn spec_restore_status_message(status: u16) -> Seq<char> {
    "/restore/next returned a non-success status: "@ + spec_status_display(status)
}

/// The message of the error a non-success `/restore/next` status ends the
/// lifecycle with. A status code lies in `100..=999`.
pub fn restore_status_message(status: u16) -> (r: String)
    requires
        100 <= status <= 999,
    ensures
        r@ == spec_restore_status_message(status),
{
    let shown = status_display(status);
    "/restore/next returned a non-success status: ".to_owned().concat(shown.as_str())
}

/// Why the lifecycle failed, carrying the original error where there is one.
#[derive(Debug, PartialEq, Eq)]
pub enum LifecycleError<E> {
    /// A resource hook returned this error.
    Hook(E),
    /// `/restore/next` could not be reached: the transport error.
    Transport(E),
    /// The `/restore/next` request could not be built: the builder's error.
    Unbuildable(E),
    /// `/restore/next` answered with this status outside `200..=299`.
    Status(u16),
}

/// Where the lifecycle stands.
#[derive(Debug, PartialEq, Eq)]
pub enum LifecyclePhase<E> {
    /// The `before_snapshot` hook of resource `index` is running.
    Before { index: usize },
    /// `/restore/next` has been requested; the VM is waiting to be restored.
    AwaitingRestore,
    /// The VM was restored; the connection pool is being rebuilt.
    ResettingPool,
    /// The `after_restore` hook of resource `index` is running.
    After { index: usize },
    /// This error is being reported to the endpoint of `kind`.
    Reporting { kind: ReportKind, error: LifecycleError<E> },
    /// The lifecycle is over, successfully or not.
    Finished { ok: bool },
}

/// The outcome of the last action, fed back to the lifecycle.
#[derive(Debug, PartialEq, Eq)]
pub enum LifecycleEvent<E> {
    /// The running hook returned `Ok`.
    HookSucceeded,
    /// The running hook returned this error.
    HookFailed(E),
    /// The `/restore/next` request could not be built: the builder's error.
    RestoreRequestUnbuildable(E),
    /// Sending `/restore/next` failed in transport: the transport error.
    RestoreTransportFailed(E),
    /// `/restore/next` answered with this status.
    RestoreResponded(u16),
    /// The connection pool was rebuilt.
    PoolReset,
    /// The failure report was sent (or could not be; either way it is over).
    ReportFinished,
}

/// What the driver must do next.
#[derive(Debug, PartialEq, Eq)]
pub enum LifecycleAction<E> {
    /// Run `before_snapshot` of the resource registered at this index.
    RunBeforeSnapshot(usize),
    /// Call `/restore/next` and wait for the restore.
    RequestRestoreNext,
    /// Discard the stale connections to the Runtime API.
    ResetPool,
    /// Run `after_restore` of the resource registered at this index.
    RunAfterRestore(usize),
    /// Report the pending error ([`RestoreLifecycle::reporting_error`]) to the
    /// endpoint of this kind.
    Report(ReportKind),
    /// The lifecycle is over with this result.
    Complete(Result<(), LifecycleError<E>>),
    /// The event did not fit the current phase; nothing to do.
    Idle,
}

/// The restore lifecycle for `count` registered resources.
#[derive(Debug, PartialEq, Eq)]
pub struct RestoreLifecycle<E> {
    /// The number of registered resources.
    pub count: usize,
    /// The current phase.
    pub phase: LifecyclePhase<E>,
}

/// The state and first action of a lifecycle.
pub open spec fn spec_start<E>(count: usize, snapstart: bool) -> (RestoreLifecycle<E>, LifecycleAction<E>) {
    if !snapstart {
        (RestoreLifecycle { count, phase: LifecyclePhase::Finished { ok: true } }, LifecycleAction::Complete(Ok(())))
    } else if count > 0 {
        (
            RestoreLifecycle { count, phase: LifecyclePhase::Before { index: (count - 1) as usize } },
            LifecycleAction::RunBeforeSnapshot((count - 1) as usize),
        )
    } else {
        (RestoreLifecycle { count, phase: LifecyclePhase::AwaitingRestore }, LifecycleAction::RequestRestoreNext)
    }
}

/// The lifecycle in `phase` over `count` resources.
pub open spec fn at<E>(count: usize, phase: LifecyclePhase<E>) -> RestoreLifecycle<E> {
    RestoreLifecycle { count, phase }
}

/// The lifecycle reporting `error` to the endpoint of `kind`.
pub open spec fn reporting<E>(count: usize, kind: ReportKind, error: LifecycleError<E>) -> (RestoreLifecycle<E>, LifecycleAction<E>) {
    (RestoreLifecycle { count, phase: LifecyclePhase::Reporting { kind, error } }, LifecycleAction::Report(kind))
}

impl<E> RestoreLifecycle<E> {
    /// Indices stay within the registered resources.
    pub open spec fn well_formed(self) -> bool {
        match self.phase {
            LifecyclePhase::Before { index } => index < self.count,
            LifecyclePhase::After { index } => index < self.count,
            _ => true,
        }
    }

    /// One step of the lifecycle.
    pub open spec fn spec_step(self, event: LifecycleEvent<E>) -> (RestoreLifecycle<E>, LifecycleAction<E>) {
        let count = self.count;
        match self.phase {
            LifecyclePhase::Before { index } => match event {
                LifecycleEvent::HookSucceeded => if index > 0 {
                    (
                        at(count, LifecyclePhase::Before { index: (index - 1) as usize }),
                        LifecycleAction::RunBeforeSnapshot((index - 1) as usize),
                    )
                } else {
                    (at(count, LifecyclePhase::AwaitingRestore), LifecycleAction::RequestRestoreNext)
                },
                LifecycleEvent::HookFailed(e) => reporting(count, ReportKind::Init, LifecycleError::Hook(e)),
                _ => (self, LifecycleAction::Idle),
            },
            LifecyclePhase::AwaitingRestore => match event {
                LifecycleEvent::RestoreRequestUnbuildable(e) => (
                    at(count, LifecyclePhase::Finished { ok: false }),
                    LifecycleAction::Complete(Err(LifecycleError::Unbuildable(e))),
                ),
                LifecycleEvent::RestoreTransportFailed(e) =>
                    reporting(count, ReportKind::Init, LifecycleError::Transport(e)),
                LifecycleEvent::RestoreResponded(status) => if spec_is_success(status) {
                    (at(count, LifecyclePhase::ResettingPool), LifecycleAction::ResetPool)
                } else {
                    reporting(count, ReportKind::Init, LifecycleError::Status(status))
                },
                _ => (self, LifecycleAction::Idle),
            },
            LifecyclePhase::ResettingPool => match event {
                LifecycleEvent::PoolReset => if count > 0 {
                    (at(count, LifecyclePhase::After { index: 0 }), LifecycleAction::RunAfterRestore(0))
                } else {
                    (at(count, LifecyclePhase::Finished { ok: true }), LifecycleAction::Complete(Ok(())))
                },
                _ => (self, LifecycleAction::Idle),
            },
            LifecyclePhase::After { index } => match event {
                LifecycleEvent::HookSucceeded => if index + 1 < count {
                    (
                        at(count, LifecyclePhase::After { index: (index + 1) as usize }),
                        LifecycleAction::RunAfterRestore((index + 1) as usize),
                    )
                } else {
                    (at(count, LifecyclePhase::Finished { ok: true }), LifecycleAction::Complete(Ok(())))
                },
                LifecycleEvent::HookFailed(e) => reporting(count, ReportKind::Restore, LifecycleError::Hook(e)),
                _ => (self, LifecycleAction::Idle),
            },
            LifecyclePhase::Reporting { kind, error } => match event {
                LifecycleEvent::ReportFinished => (
                    at(count, LifecyclePhase::Finished { ok: false }),
                    LifecycleAction::Complete(Err(error)),
                ),
                _ => (self, LifecycleAction::Idle),
            },
            LifecyclePhase::Finished { .. } => (self, LifecycleAction::Idle),
        }
    }

    /// Begins the lifecycle for `count` registered resources. When SnapStart
    /// is not enabled the lifecycle is over at once and runs nothing.
    pub fn start(count: usize, snapstart: bool) -> (r: (RestoreLifecycle<E>, LifecycleAction<E>))
        ensures
            r == spec_start::<E>(count, snapstart),
            r.0.well_formed(),
    {
        if !snapstart {
            (RestoreLifecycle { count, phase: LifecyclePhase::Finished { ok: true } }, LifecycleAction::Complete(Ok(())))
        } else if count > 0 {
            (
                RestoreLifecycle { count, phase: LifecyclePhase::Before { index: count - 1 } },
                LifecycleAction::RunBeforeSnapshot(count - 1),
            )
        } else {
            (RestoreLifecycle { count, phase: LifecyclePhase::AwaitingRestore }, LifecycleAction::RequestRestoreNext)
        }
    }

    /// Feeds the outcome of the last action and gives the lifecycle after it
    /// and the next action. A failure ends the lifecycle with the error that
    /// occurred: the hook's or the transport's own.
    pub fn step(self, event: LifecycleEvent<E>) -> (r: (RestoreLifecycle<E>, LifecycleAction<E>))
        requires
            self.well_formed(),
        ensures
            r == self.spec_step(event),
            r.0.well_formed(),
    {
        let count = self.count;
        match self.phase {
            LifecyclePhase::Before { index } => match event {
                LifecycleEvent::HookSucceeded => if index > 0 {
                    (
                        RestoreLifecycle { count, phase: LifecyclePhase::Before { index: index - 1 } },
                        LifecycleAction::RunBeforeSnapshot(index - 1),
                    )
                } else {
                    (RestoreLifecycle { count, phase: LifecyclePhase::AwaitingRestore }, LifecycleAction::RequestRestoreNext)
                },
                LifecycleEvent::HookFailed(e) => (
                    RestoreLifecycle {
                        count,
                        phase: LifecyclePhase::Reporting { kind: ReportKind::Init, error: LifecycleError::Hook(e) },
                    },
                    LifecycleAction::Report(ReportKind::Init),
                ),
                _ => (RestoreLifecycle { count, phase: LifecyclePhase::Before { index } }, LifecycleAction::Idle),
            },
            LifecyclePhase::AwaitingRestore => match event {
                LifecycleEvent::RestoreRequestUnbuildable(e) => (
                    RestoreLifecycle { count, phase: LifecyclePhase::Finished { ok: false } },
                    LifecycleAction::Complete(Err(LifecycleError::Unbuildable(e))),
                ),
                LifecycleEvent::RestoreTransportFailed(e) => (
                    RestoreLifecycle {
                        count,
                        phase: LifecyclePhase::Reporting { kind: ReportKind::Init, error: LifecycleError::Transport(e) },
                    },
                    LifecycleAction::Report(ReportKind::Init),
                ),
                LifecycleEvent::RestoreResponded(status) => if is_success(status) {
                    (RestoreLifecycle { count, phase: LifecyclePhase::ResettingPool }, LifecycleAction::ResetPool)
                } else {
                    (
                        RestoreLifecycle {
                            count,
                            phase: LifecyclePhase::Reporting { kind: ReportKind::Init, error: LifecycleError::Status(status) },
                        },
                        LifecycleAction::Report(ReportKind::Init),
                    )
                },
                _ => (RestoreLifecycle { count, phase: LifecyclePhase::AwaitingRestore }, LifecycleAction::Idle),
            },
            LifecyclePhase::ResettingPool => match event {
                LifecycleEvent::PoolReset => if count > 0 {
                    (RestoreLifecycle { count, phase: LifecyclePhase::After { index: 0 } }, LifecycleAction::RunAfterRestore(0))
                } else {
                    (RestoreLifecycle { count, phase: LifecyclePhase::Finished { ok: true } }, LifecycleAction::Complete(Ok(())))
                },
                _ => (RestoreLifecycle { count, phase: LifecyclePhase::ResettingPool }, LifecycleAction::Idle),
            },
            LifecyclePhase::After { index } => match event {
                LifecycleEvent::HookSucceeded => if index + 1 < count {
                    (
                        RestoreLifecycle { count, phase: LifecyclePhase::After { index: index + 1 } },
                        LifecycleAction::RunAfterRestore(index + 1),
                    )
                } else {
                    (RestoreLifecycle { count, phase: LifecyclePhase::Finished { ok: true } }, LifecycleAction::Complete(Ok(())))
                },
                LifecycleEvent::HookFailed(e) => (
                    RestoreLifecycle {
                        count,
                        phase: LifecyclePhase::Reporting { kind: ReportKind::Restore, error: LifecycleError::Hook(e) },
                    },
                    LifecycleAction::Report(ReportKind::Restore),
                ),
                _ => (RestoreLifecycle { count, phase: LifecyclePhase::After { index } }, LifecycleAction::Idle),
            },
            LifecyclePhase::Reporting { kind, error } => match event {
                LifecycleEvent::ReportFinished => (
                    RestoreLifecycle { count, phase: LifecyclePhase::Finished { ok: false } },
                    LifecycleAction::Complete(Err(error)),
                ),
                _ => (RestoreLifecycle { count, phase: LifecyclePhase::Reporting { kind, error } }, LifecycleAction::Idle),
            },
            LifecyclePhase::Finished { ok } => (RestoreLifecycle { count, phase: LifecyclePhase::Finished { ok } }, LifecycleAction::Idle),
        }
    }

    /// The error being reported, while a report is pending.
    pub fn reporting_error(&self) -> (r: Option<&LifecycleError<E>>)
        ensures
            match self.phase {
                LifecyclePhase::Reporting { error, .. } => r == Some(&error),
                _ => r is None,
            },
    {
        match &self.phase {
            LifecyclePhase::Reporting { error, .. } => Some(error),
            _ => None,
        }
    }

    /// Whether the lifecycle is over.
    pub fn is_finished(&self) -> (r: bool)
        ensures
            r == (self.phase is Finished),
    {
        match self.phase {
            LifecyclePhase::Finished { .. } => true,
            _ => false,
        }
    }
}

/// The actions a lifecycle gives for a sequence of events.
pub open spec fn spec_run<E>(l: RestoreLifecycle<E>, events: Seq<LifecycleEvent<E>>) -> Seq<LifecycleAction<E>>
    decreases events.len(),
{
    if events.len() == 0 {
        Seq::empty()
    } else {
        let (next, action) = l.spec_step(events[0]);
        seq![action] + spec_run(next, events.drop_first())
    }
}

/// The lifecycle after a sequence of events.
pub open spec fn spec_after<E>(l: RestoreLifecycle<E>, events: Seq<LifecycleEvent<E>>) -> RestoreLifecycle<E>
    decreases events.len(),
{
    if events.len() == 0 {
        l
    } else {
        spec_after(l.spec_step(events[0]).0, events.drop_first())
    }
}

/// The full action trace of a lifecycle: its first action, then the actions
/// that the events give.
pub open spec fn spec_trace<E>(count: usize, snapstart: bool, events: Seq<LifecycleEvent<E>>) -> Seq<LifecycleAction<E>> {
    let (l, first) = spec_start::<E>(count, snapstart);
    seq![first] + spec_run(l, events)
}

/// `n` successful hook runs.
pub open spec fn hook_successes<E>(n: nat) -> Seq<LifecycleEvent<E>> {
    Seq::new(n, |i: int| LifecycleEvent::<E>::HookSucceeded)
}

/// `before_snapshot` of every resource from `top` down to the first one.
pub open spec fn before_hooks_from<E>(top: nat) -> Seq<LifecycleAction<E>> {
    Seq::new(top, |i: int| LifecycleAction::<E>::RunBeforeSnapshot((top - 1 - i) as usize))
}

/// `after_restore` of every resource from `first` up to `count - 1`.
pub open spec fn after_hooks_from<E>(first: nat, count: nat) -> Seq<LifecycleAction<E>> {
    Seq::new((count - first) as nat, |i: int| LifecycleAction::<E>::RunAfterRestore((first + i) as usize))
}

/// The events of a restore in which every hook succeeds and `/restore/next`
/// answers `status`.
pub open spec fn successful_restore_events<E>(count: nat, status: u16) -> Seq<LifecycleEvent<E>> {
    hook_successes::<E>(count) + seq![LifecycleEvent::<E>::RestoreResponded(status), LifecycleEvent::<E>::PoolReset]
        + hook_successes::<E>(count)
}

/// Running a sequence of events in two parts gives the same actions as running it at once.
pub proof fn lemma_run_append<E>(l: RestoreLifecycle<E>, a: Seq<LifecycleEvent<E>>, b: Seq<LifecycleEvent<E>>)
    ensures
        spec_run(l, a + b) == spec_run(l, a) + spec_run(spec_after(l, a), b),
        spec_after(l, a + b) == spec_after(spec_after(l, a), b),
    decreases a.len(),
{
    if a.len() == 0 {
        assert(a + b =~= b);
        assert(spec_run(l, a) =~= Seq::<LifecycleAction<E>>::empty());
        assert(Seq::<LifecycleAction<E>>::empty() + spec_run(l, b) =~= spec_run(l, b));
    } else {
        let (next, action) = l.spec_step(a[0]);
        assert((a + b).drop_first() =~= a.drop_first() + b);
        assert((a + b)[0] == a[0]);
        lemma_run_append(next, a.drop_first(), b);
        assert(seq![action] + (spec_run(next, a.drop_first()) + spec_run(spec_after(next, a.drop_first()), b))
            =~= (seq![action] + spec_run(next, a.drop_first())) + spec_run(spec_after(next, a.drop_first()), b));
    }
}

/// While the `before_snapshot` hook of resource `index` runs, `index + 1`
/// successes run the hooks below it in descending order and then call
/// `/restore/next`.
pub proof fn lemma_before_phase<E>(count: usize, index: usize)
    requires
        index < count,
    ensures
        ({
            let l = at(count, LifecyclePhase::<E>::Before { index });
            &&& spec_run(l, hook_successes::<E>((index + 1) as nat))
                == before_hooks_from::<E>(index as nat) + seq![LifecycleAction::<E>::RequestRestoreNext]
            &&& spec_after(l, hook_successes::<E>((index + 1) as nat))
                == at(count, LifecyclePhase::<E>::AwaitingRestore)
        }),
    decreases index,
{
    let l = at(count, LifecyclePhase::<E>::Before { index });
    let evs = hook_successes::<E>((index + 1) as nat);
    assert(evs[0] == LifecycleEvent::<E>::HookSucceeded);
    if index == 0 {
        assert(evs.drop_first() =~= Seq::<LifecycleEvent<E>>::empty());
        let next = l.spec_step(evs[0]).0;
        assert(spec_run(next, evs.drop_first()) =~= Seq::<LifecycleAction<E>>::empty());
        assert(spec_after(next, evs.drop_first()) == next);
        assert(before_hooks_from::<E>(0) =~= Seq::<LifecycleAction<E>>::empty());
        assert(spec_run(l, evs) =~= seq![LifecycleAction::<E>::RequestRestoreNext]);
    } else {
        assert(evs.drop_first() =~= hook_successes::<E>(index as nat));
        lemma_before_phase::<E>(count, (index - 1) as usize);
        assert(seq![LifecycleAction::<E>::RunBeforeSnapshot((index - 1) as usize)]
            + (before_hooks_from::<E>((index - 1) as nat) + seq![LifecycleAction::<E>::RequestRestoreNext])
            =~= before_hooks_from::<E>(index as nat) + seq![LifecycleAction::<E>::RequestRestoreNext]);
    }
}

/// While the `after_restore` hook of resource `index` runs, the remaining
/// successes run the hooks above it in ascending order and then complete.
pub proof fn lemma_after_phase<E>(count: usize, index: usize)
    requires
        index < count,
    ensures
        ({
            let l = at(count, LifecyclePhase::<E>::After { index });
            &&& spec_run(l, hook_successes::<E>((count - index) as nat))
                == after_hooks_from::<E>((index + 1) as nat, count as nat) + seq![LifecycleAction::<E>::Complete(Ok(()))]
            &&& spec_after(l, hook_successes::<E>((count - index) as nat))
                == at(count, LifecyclePhase::<E>::Finished { ok: true })
        }),
    decreases count - index,
{
    let l = at(count, LifecyclePhase::<E>::After { index });
    let evs = hook_successes::<E>((count - index) as nat);
    assert(evs[0] == LifecycleEvent::<E>::HookSucceeded);
    if index + 1 == count {
        assert(evs.drop_first() =~= Seq::<LifecycleEvent<E>>::empty());
        let next = l.spec_step(evs[0]).0;
        assert(spec_run(next, evs.drop_first()) =~= Seq::<LifecycleAction<E>>::empty());
        assert(spec_after(next, evs.drop_first()) == next);
        assert(after_hooks_from::<E>((index + 1) as nat, count as nat) =~= Seq::<LifecycleAction<E>>::empty());
        assert(spec_run(l, evs) =~= seq![LifecycleAction::<E>::Complete(Ok(()))]);
    } else {
        assert(evs.drop_first() =~= hook_successes::<E>((count - (index + 1)) as nat));
        lemma_after_phase::<E>(count, (index + 1) as usize);
        assert(seq![LifecycleAction::<E>::RunAfterRestore((index + 1) as usize)]
            + (after_hooks_from::<E>((index + 2) as nat, count as nat) + seq![LifecycleAction::<E>::Complete(Ok(()))])
            =~= after_hooks_from::<E>((index + 1) as nat, count as nat) + seq![LifecycleAction::<E>::Complete(Ok(()))]);
    }
}

/// When every `before_snapshot` hook succeeds, the hooks run in descending
/// order, `/restore/next` is called, and what follows runs from there.
pub proof fn lemma_through_restore_next<E>(count: usize, tail: Seq<LifecycleEvent<E>>)
    ensures
        spec_trace(count, true, hook_successes::<E>(count as nat) + tail)
            == before_hooks_from::<E>(count as nat) + seq![LifecycleAction::<E>::RequestRestoreNext]
                + spec_run(at(count, LifecyclePhase::<E>::AwaitingRestore), tail),
        spec_after(spec_start::<E>(count, true).0, hook_successes::<E>(count as nat) + tail)
            == spec_after(at(count, LifecyclePhase::<E>::AwaitingRestore), tail),
{
    let n = count as nat;
    let (l0, first) = spec_start::<E>(count, true);
    let awaiting = at(count, LifecyclePhase::<E>::AwaitingRestore);
    if count > 0 {
        lemma_before_phase::<E>(count, (count - 1) as usize);
        lemma_run_append(l0, hook_successes::<E>(n), tail);
        assert(seq![first] + (before_hooks_from::<E>((n - 1) as nat) + seq![LifecycleAction::<E>::RequestRestoreNext]
            + spec_run(awaiting, tail))
            =~= before_hooks_from::<E>(n) + seq![LifecycleAction::<E>::RequestRestoreNext] + spec_run(awaiting, tail));
    } else {
        assert(hook_successes::<E>(n) + tail =~= tail);
        assert(before_hooks_from::<E>(n) =~= Seq::<LifecycleAction<E>>::empty());
        assert(seq![first] + spec_run(l0, tail)
            =~= before_hooks_from::<E>(n) + seq![LifecycleAction::<E>::RequestRestoreNext] + spec_run(awaiting, tail));
    }
}

/// A failing event that the lifecycle reports: the report, then the end with
/// the error the report was about.
proof fn lemma_fail_and_report<E>(l: RestoreLifecycle<E>, ev: LifecycleEvent<E>, kind: ReportKind, err: LifecycleError<E>)
    requires
        l.spec_step(ev) == reporting(l.count, kind, err),
    ensures
        spec_run(l, seq![ev, LifecycleEvent::<E>::ReportFinished])
            == seq![LifecycleAction::<E>::Report(kind), LifecycleAction::<E>::Complete(Err(err))],
        spec_after(l, seq![ev]) == at(l.count, LifecyclePhase::Reporting { kind, error: err }),
{
    let evs = seq![ev, LifecycleEvent::<E>::ReportFinished];
    let rep = at(l.count, LifecyclePhase::Reporting { kind, error: err });
    let fin = at(l.count, LifecyclePhase::<E>::Finished { ok: false });
    assert(evs.drop_first() =~= seq![LifecycleEvent::<E>::ReportFinished]);
    assert(evs.drop_first().drop_first() =~= Seq::<LifecycleEvent<E>>::empty());
    assert(spec_run(fin, evs.drop_first().drop_first()) =~= Seq::<LifecycleAction<E>>::empty());
    assert(spec_run(rep, evs.drop_first()) =~= seq![LifecycleAction::<E>::Complete(Err(err))]);
    assert(seq![ev][0] == ev);
    assert(seq![ev].drop_first() =~= Seq::<LifecycleEvent<E>>::empty());
    assert(spec_after(rep, seq![ev].drop_first()) == rep);
}

/// Law (ordering): when SnapStart is enabled and everything succeeds, the
/// lifecycle runs `before_snapshot` in reverse registration order, then calls
/// `/restore/next`, rebuilds the connection pool, runs `after_restore` in
/// registration order, and completes successfully.
pub proof fn lemma_restore_order<E>(count: usize, status: u16)
    requires
        spec_is_success(status),
    ensures
        spec_trace(count, true, successful_restore_events::<E>(count as nat, status))
            == before_hooks_from::<E>(count as nat)
                + seq![LifecycleAction::<E>::RequestRestoreNext, LifecycleAction::<E>::ResetPool]
                + after_hooks_from::<E>(0, count as nat)
                + seq![LifecycleAction::<E>::Complete(Ok(()))],
{
    let n = count as nat;
    let awaiting = at(count, LifecyclePhase::<E>::AwaitingRestore);
    let resetting = at(count, LifecyclePhase::<E>::ResettingPool);
    let after_part = seq![LifecycleEvent::<E>::RestoreResponded(status), LifecycleEvent::<E>::PoolReset]
        + hook_successes::<E>(n);
    assert(successful_restore_events::<E>(n, status) =~= hook_successes::<E>(n) + after_part);
    lemma_through_restore_next::<E>(count, after_part);
    assert(after_part[0] == LifecycleEvent::<E>::RestoreResponded(status));
    assert(after_part.drop_first()[0] == LifecycleEvent::<E>::PoolReset);
    assert(after_part.drop_first().drop_first() =~= hook_successes::<E>(n));
    let restored_actions = seq![LifecycleAction::<E>::ResetPool] + after_hooks_from::<E>(0, n)
        + seq![LifecycleAction::<E>::Complete(Ok(()))];
    if count > 0 {
        let first_after = at(count, LifecyclePhase::<E>::After { index: 0 });
        lemma_after_phase::<E>(count, 0);
        assert(spec_run(resetting, after_part.drop_first())
            == seq![LifecycleAction::<E>::RunAfterRestore(0)] + spec_run(first_after, hook_successes::<E>(n)));
        assert(seq![LifecycleAction::<E>::ResetPool] + (seq![LifecycleAction::<E>::RunAfterRestore(0)]
            + (after_hooks_from::<E>(1, n) + seq![LifecycleAction::<E>::Complete(Ok(()))])) =~= restored_actions);
    } else {
        assert(hook_successes::<E>(n) =~= Seq::<LifecycleEvent<E>>::empty());
        let done = resetting.spec_step(LifecycleEvent::<E>::PoolReset).0;
        assert(spec_run(done, after_part.drop_first().drop_first()) =~= Seq::<LifecycleAction<E>>::empty());
        assert(spec_run(resetting, after_part.drop_first()) =~= seq![LifecycleAction::<E>::Complete(Ok(()))]);
        assert(after_hooks_from::<E>(0, n) =~= Seq::<LifecycleAction<E>>::empty());
        assert(seq![LifecycleAction::<E>::ResetPool] + seq![LifecycleAction::<E>::Complete(Ok(()))] =~= restored_actions);
    }
    assert(spec_run(awaiting, after_part)
        == seq![LifecycleAction::<E>::ResetPool] + spec_run(resetting, after_part.drop_first()));
    assert(before_hooks_from::<E>(n) + seq![LifecycleAction::<E>::RequestRestoreNext] + restored_actions
        =~= before_hooks_from::<E>(n)
            + seq![LifecycleAction::<E>::RequestRestoreNext, LifecycleAction::<E>::ResetPool]
            + after_hooks_from::<E>(0, n)
            + seq![LifecycleAction::<E>::Complete(Ok(()))]);
}

/// `j` successes while the `before_snapshot` hook of resource `index` runs
/// (`j <= index`) run the `j` hooks below it in descending order.
pub proof fn lemma_before_partial<E>(count: usize, index: usize, j: nat)
    requires
        index < count,
        j <= index,
    ensures
        ({
            let l = at(count, LifecyclePhase::<E>::Before { index });
            &&& spec_run(l, hook_successes::<E>(j))
                == Seq::new(j, |i: int| LifecycleAction::<E>::RunBeforeSnapshot((index - 1 - i) as usize))
            &&& spec_after(l, hook_successes::<E>(j))
                == at(count, LifecyclePhase::<E>::Before { index: (index - j) as usize })
        }),
    decreases j,
{
    let l = at(count, LifecyclePhase::<E>::Before { index });
    let evs = hook_successes::<E>(j);
    if j == 0 {
        assert(Seq::new(j, |i: int| LifecycleAction::<E>::RunBeforeSnapshot((index - 1 - i) as usize))
            =~= Seq::<LifecycleAction<E>>::empty());
    } else {
        assert(evs[0] == LifecycleEvent::<E>::HookSucceeded);
        assert(evs.drop_first() =~= hook_successes::<E>((j - 1) as nat));
        lemma_before_partial::<E>(count, (index - 1) as usize, (j - 1) as nat);
        assert(seq![LifecycleAction::<E>::RunBeforeSnapshot((index - 1) as usize)]
            + Seq::new((j - 1) as nat, |i: int| LifecycleAction::<E>::RunBeforeSnapshot((index - 1 - 1 - i) as usize))
            =~= Seq::new(j, |i: int| LifecycleAction::<E>::RunBeforeSnapshot((index - 1 - i) as usize)));
    }
}

/// Law: when the `before_snapshot` hook of a resource fails with `e`, after
/// the hooks of the resources registered after it succeeded, that error is
/// reported to `/init/error`, `/restore/next` is never called, no
/// `after_restore` hook runs, and the lifecycle ends with the hook's own error.
pub proof fn lemma_before_snapshot_failure<E>(count: usize, succeeded: nat, e: E)
    requires
        succeeded < count,
    ensures
        spec_trace(count, true, hook_successes::<E>(succeeded)
            + seq![LifecycleEvent::HookFailed(e), LifecycleEvent::<E>::ReportFinished])
            == Seq::new(succeeded + 1, |i: int| LifecycleAction::<E>::RunBeforeSnapshot((count - 1 - i) as usize))
                + seq![LifecycleAction::<E>::Report(ReportKind::Init), LifecycleAction::Complete(Err(LifecycleError::Hook(e)))],
        spec_after(spec_start::<E>(count, true).0, hook_successes::<E>(succeeded) + seq![LifecycleEvent::HookFailed(e)]).phase
            == (LifecyclePhase::Reporting { kind: ReportKind::Init, error: LifecycleError::Hook(e) }),
{
    let (l0, first) = spec_start::<E>(count, true);
    let tail = seq![LifecycleEvent::HookFailed(e), LifecycleEvent::<E>::ReportFinished];
    lemma_before_partial::<E>(count, (count - 1) as usize, succeeded);
    lemma_run_append(l0, hook_successes::<E>(succeeded), tail);
    lemma_run_append(l0, hook_successes::<E>(succeeded), seq![LifecycleEvent::HookFailed(e)]);
    let failing = spec_after(l0, hook_successes::<E>(succeeded));
    lemma_fail_and_report(failing, LifecycleEvent::HookFailed(e), ReportKind::Init, LifecycleError::Hook(e));
    assert(seq![first] + (Seq::new(succeeded, |i: int| LifecycleAction::<E>::RunBeforeSnapshot(((count - 1) as usize - 1 - i) as usize))
        + spec_run(failing, tail))
        =~= Seq::new(succeeded + 1, |i: int| LifecycleAction::<E>::RunBeforeSnapshot((count - 1 - i) as usize))
            + seq![LifecycleAction::<E>::Report(ReportKind::Init), LifecycleAction::Complete(Err(LifecycleError::Hook(e)))]);
}

/// Law: when `/restore/next` answers with a status outside `200..=299`, the
/// failure is reported to `/init/error`, the connection pool is not reset, no
/// `after_restore` hook runs, and the lifecycle ends with an error that
/// carries the status.
pub proof fn lemma_restore_status_failure<E>(count: usize, status: u16)
    requires
        !spec_is_success(status),
    ensures
        spec_trace(count, true, hook_successes::<E>(count as nat)
            + seq![LifecycleEvent::<E>::RestoreResponded(status), LifecycleEvent::<E>::ReportFinished])
            == before_hooks_from::<E>(count as nat)
                + seq![LifecycleAction::<E>::RequestRestoreNext,
                    LifecycleAction::<E>::Report(ReportKind::Init),
                    LifecycleAction::<E>::Complete(Err(LifecycleError::Status(status)))],
{
    let awaiting = at(count, LifecyclePhase::<E>::AwaitingRestore);
    let tail = seq![LifecycleEvent::<E>::RestoreResponded(status), LifecycleEvent::<E>::ReportFinished];
    lemma_through_restore_next::<E>(count, tail);
    lemma_fail_and_report(awaiting, LifecycleEvent::<E>::RestoreResponded(status), ReportKind::Init,
        LifecycleError::<E>::Status(status));
    assert(before_hooks_from::<E>(count as nat) + seq![LifecycleAction::<E>::RequestRestoreNext]
        + spec_run(awaiting, tail) =~= before_hooks_from::<E>(count as nat)
            + seq![LifecycleAction::<E>::RequestRestoreNext,
                LifecycleAction::<E>::Report(ReportKind::Init),
                LifecycleAction::<E>::Complete(Err(LifecycleError::Status(status)))]);
}

/// Law: when `/restore/next` cannot be reached, the transport error is
/// reported to `/init/error`, the connection pool is not reset, no
/// `after_restore` hook runs, and the lifecycle ends with the transport's own
/// error.
pub proof fn lemma_restore_transport_failure<E>(count: usize, e: E)
    ensures
        spec_trace(count, true, hook_successes::<E>(count as nat)
            + seq![LifecycleEvent::RestoreTransportFailed(e), LifecycleEvent::<E>::ReportFinished])
            == before_hooks_from::<E>(count as nat)
                + seq![LifecycleAction::<E>::RequestRestoreNext,
                    LifecycleAction::<E>::Report(ReportKind::Init),
                    LifecycleAction::Complete(Err(LifecycleError::Transport(e)))],
{
    let awaiting = at(count, LifecyclePhase::<E>::AwaitingRestore);
    let tail = seq![LifecycleEvent::RestoreTransportFailed(e), LifecycleEvent::<E>::ReportFinished];
    lemma_through_restore_next::<E>(count, tail);
    lemma_fail_and_report(awaiting, LifecycleEvent::RestoreTransportFailed(e), ReportKind::Init,
        LifecycleError::Transport(e));
    assert(before_hooks_from::<E>(count as nat) + seq![LifecycleAction::<E>::RequestRestoreNext]
        + spec_run(awaiting, tail) =~= before_hooks_from::<E>(count as nat)
            + seq![LifecycleAction::<E>::RequestRestoreNext,
                LifecycleAction::<E>::Report(ReportKind::Init),
                LifecycleAction::Complete(Err(LifecycleError::Transport(e)))]);
}

/// Law: when the `/restore/next` request cannot be built, the lifecycle ends
/// at once with the builder's own error, without reporting it.
pub proof fn lemma_unbuildable_restore_request<E>(count: usize, e: E)
    ensures
        spec_trace(count, true, hook_successes::<E>(count as nat) + seq![LifecycleEvent::RestoreRequestUnbuildable(e)])
            == before_hooks_from::<E>(count as nat)
                + seq![LifecycleAction::<E>::RequestRestoreNext,
                    LifecycleAction::Complete(Err(LifecycleError::Unbuildable(e)))],
{
    let awaiting = at(count, LifecyclePhase::<E>::AwaitingRestore);
    let tail = seq![LifecycleEvent::RestoreRequestUnbuildable(e)];
    lemma_through_restore_next::<E>(count, tail);
    let fin = at(count, LifecyclePhase::<E>::Finished { ok: false });
    assert(tail.drop_first() =~= Seq::<LifecycleEvent<E>>::empty());
    assert(spec_run(fin, tail.drop_first()) =~= Seq::<LifecycleAction<E>>::empty());
    assert(spec_run(awaiting, tail) =~= seq![LifecycleAction::Complete(Err(LifecycleError::Unbuildable(e)))]);
    assert(before_hooks_from::<E>(count as nat) + seq![LifecycleAction::<E>::RequestRestoreNext]
        + spec_run(awaiting, tail) =~= before_hooks_from::<E>(count as nat)
            + seq![LifecycleAction::<E>::RequestRestoreNext,
                LifecycleAction::Complete(Err(LifecycleError::Unbuildable(e)))]);
}

/// Law: without SnapStart the lifecycle completes at once and, whatever
/// happens afterwards, never runs a hook nor calls the Runtime API.
pub proof fn lemma_not_snapstart_is_noop<E>(count: usize, events: Seq<LifecycleEvent<E>>)
    ensures
        spec_trace(count, false, events)
            == seq![LifecycleAction::<E>::Complete(Ok(()))] + Seq::new(events.len(), |i: int| LifecycleAction::<E>::Idle),
{
    lemma_finished_stays_idle(at(count, LifecyclePhase::<E>::Finished { ok: true }), events);
}

/// A finished lifecycle answers every event with `Idle`.
pub proof fn lemma_finished_stays_idle<E>(l: RestoreLifecycle<E>, events: Seq<LifecycleEvent<E>>)
    requires
        l.phase is Finished,
    ensures
        spec_run(l, events) == Seq::new(events.len(), |i: int| LifecycleAction::<E>::Idle),
    decreases events.len(),
{
    if events.len() == 0 {
        assert(Seq::new(events.len(), |i: int| LifecycleAction::<E>::Idle) =~= Seq::<LifecycleAction<E>>::empty());
    } else {
        lemma_finished_stays_idle(l, events.drop_first());
        assert(seq![LifecycleAction::<E>::Idle] + Seq::new(events.drop_first().len(), |i: int| LifecycleAction::<E>::Idle)
            =~= Seq::new(events.len(), |i: int| LifecycleAction::<E>::Idle));
    }
}

/// `j` successes while the `after_restore` hook of resource `index` runs
/// (`index + j < count`) run the `j` hooks above it in ascending order.
pub proof fn lemma_after_partial<E>(count: usize, index: usize, j: nat)
    requires
        index + j < count,
    ensures
        ({
            let l = at(count, LifecyclePhase::<E>::After { index });
            &&& spec_run(l, hook_successes::<E>(j))
                == Seq::new(j, |i: int| LifecycleAction::<E>::RunAfterRestore((index + 1 + i) as usize))
            &&& spec_after(l, hook_successes::<E>(j))
                == at(count, LifecyclePhase::<E>::After { index: (index + j) as usize })
        }),
    decreases j,
{
    let l = at(count, LifecyclePhase::<E>::After { index });
    let evs = hook_successes::<E>(j);
    if j == 0 {
        assert(Seq::new(j, |i: int| LifecycleAction::<E>::RunAfterRestore((index + 1 + i) as usize))
            =~= Seq::<LifecycleAction<E>>::empty());
    } else {
        assert(evs[0] == LifecycleEvent::<E>::HookSucceeded);
        assert(evs.drop_first() =~= hook_successes::<E>((j - 1) as nat));
        lemma_after_partial::<E>(count, (index + 1) as usize, (j - 1) as nat);
        assert(seq![LifecycleAction::<E>::RunAfterRestore((index + 1) as usize)]
            + Seq::new((j - 1) as nat, |i: int| LifecycleAction::<E>::RunAfterRestore((index + 1 + 1 + i) as usize))
            =~= Seq::new(j, |i: int| LifecycleAction::<E>::RunAfterRestore((index + 1 + i) as usize)));
    }
}

/// Law: when the `after_restore` hook of a resource fails with `e`, after the
/// hooks of the resources registered before it succeeded, that error is
/// reported to `/restore/error`, no later hook runs, and the lifecycle ends
/// with the hook's own error. The pool was reset before the first
/// `after_restore` hook.
pub proof fn lemma_after_restore_failure<E>(count: usize, status: u16, succeeded: nat, e: E)
    requires
        spec_is_success(status),
        succeeded < count,
    ensures
        spec_trace(count, true, hook_successes::<E>(count as nat)
            + seq![LifecycleEvent::<E>::RestoreResponded(status), LifecycleEvent::<E>::PoolReset]
            + hook_successes::<E>(succeeded)
            + seq![LifecycleEvent::HookFailed(e), LifecycleEvent::<E>::ReportFinished])
            == before_hooks_from::<E>(count as nat)
                + seq![LifecycleAction::<E>::RequestRestoreNext, LifecycleAction::<E>::ResetPool]
                + Seq::new(succeeded + 1, |i: int| LifecycleAction::<E>::RunAfterRestore(i as usize))
                + seq![LifecycleAction::<E>::Report(ReportKind::Restore),
                    LifecycleAction::Complete(Err(LifecycleError::Hook(e)))],
        spec_after(spec_start::<E>(count, true).0, hook_successes::<E>(count as nat)
            + seq![LifecycleEvent::<E>::RestoreResponded(status), LifecycleEvent::<E>::PoolReset]
            + hook_successes::<E>(succeeded)
            + seq![LifecycleEvent::HookFailed(e)]).phase
            == (LifecyclePhase::Reporting { kind: ReportKind::Restore, error: LifecycleError::Hook(e) }),
{
    let n = count as nat;
    let awaiting = at(count, LifecyclePhase::<E>::AwaitingRestore);
    let resetting = at(count, LifecyclePhase::<E>::ResettingPool);
    let first_after = at(count, LifecyclePhase::<E>::After { index: 0 });
    let restore = seq![LifecycleEvent::<E>::RestoreResponded(status), LifecycleEvent::<E>::PoolReset];
    let fail = seq![LifecycleEvent::HookFailed(e), LifecycleEvent::<E>::ReportFinished];
    let failed = seq![LifecycleEvent::HookFailed(e)];
    // the failing hook and its report
    let failing = at(count, LifecyclePhase::<E>::After { index: succeeded as usize });
    lemma_fail_and_report(failing, LifecycleEvent::HookFailed(e), ReportKind::Restore, LifecycleError::Hook(e));
    let failure = seq![LifecycleAction::<E>::Report(ReportKind::Restore), LifecycleAction::Complete(Err(LifecycleError::Hook(e)))];
    // the after hooks that succeeded
    lemma_after_partial::<E>(count, 0, succeeded);
    lemma_run_append(first_after, hook_successes::<E>(succeeded), fail);
    lemma_run_append(first_after, hook_successes::<E>(succeeded), failed);
    let after_actions = Seq::new(succeeded, |i: int| LifecycleAction::<E>::RunAfterRestore((0 + 1 + i) as usize));
    assert(spec_run(first_after, hook_successes::<E>(succeeded) + fail) == after_actions + failure);
    // the restore, for the whole run and for the run up to the failing hook
    let rest = restore + (hook_successes::<E>(succeeded) + fail);
    assert(rest[0] == LifecycleEvent::<E>::RestoreResponded(status));
    assert(rest.drop_first()[0] == LifecycleEvent::<E>::PoolReset);
    assert(rest.drop_first().drop_first() =~= hook_successes::<E>(succeeded) + fail);
    assert(spec_run(resetting, rest.drop_first())
        == seq![LifecycleAction::<E>::RunAfterRestore(0)] + spec_run(first_after, hook_successes::<E>(succeeded) + fail));
    assert(spec_run(awaiting, rest) == seq![LifecycleAction::<E>::ResetPool] + spec_run(resetting, rest.drop_first()));
    let upto = restore + (hook_successes::<E>(succeeded) + failed);
    assert(upto[0] == LifecycleEvent::<E>::RestoreResponded(status));
    assert(upto.drop_first()[0] == LifecycleEvent::<E>::PoolReset);
    assert(upto.drop_first().drop_first() =~= hook_successes::<E>(succeeded) + failed);
    assert(spec_after(resetting, upto.drop_first()) == spec_after(first_after, upto.drop_first().drop_first()));
    assert(spec_after(awaiting, upto) == spec_after(resetting, upto.drop_first()));
    assert(spec_after(awaiting, upto) == spec_after(first_after, hook_successes::<E>(succeeded) + failed));
    lemma_through_restore_next::<E>(count, rest);
    lemma_through_restore_next::<E>(count, upto);
    assert(hook_successes::<E>(n) + restore + hook_successes::<E>(succeeded) + fail =~= hook_successes::<E>(n) + rest);
    assert(hook_successes::<E>(n) + restore + hook_successes::<E>(succeeded) + failed =~= hook_successes::<E>(n) + upto);
    assert(before_hooks_from::<E>(n) + seq![LifecycleAction::<E>::RequestRestoreNext]
        + (seq![LifecycleAction::<E>::ResetPool] + (seq![LifecycleAction::<E>::RunAfterRestore(0)] + (after_actions + failure)))
        =~= before_hooks_from::<E>(n)
            + seq![LifecycleAction::<E>::RequestRestoreNext, LifecycleAction::<E>::ResetPool]
            + Seq::new(succeeded + 1, |i: int| LifecycleAction::<E>::RunAfterRestore(i as usize))
            + failure);
}

/// Law: every status from 200 to 299 answered by `/restore/next` counts as a
/// restore, so the pool is reset next; any other status is reported.
pub proof fn lemma_restore_2xx_resets_pool<E>(count: usize, status: u16)
    ensures
        spec_is_success(status) <==> 200 <= status <= 299,
        200 <= status <= 299 ==> at(count, LifecyclePhase::<E>::AwaitingRestore).spec_step(LifecycleEvent::RestoreResponded(status)).1
            == LifecycleAction::<E>::ResetPool,
        !(200 <= status <= 299) ==> at(count, LifecyclePhase::<E>::AwaitingRestore).spec_step(LifecycleEvent::RestoreResponded(status)).1
            == LifecycleAction::<E>::Report(ReportKind::Init),
{
}

} // verus!
