//! Supervision of the concurrent workers of a runtime (Lambda Managed
//! Instances).
//!
//! One worker runs per concurrency slot. A worker that exits (cleanly, with an
//! error, or by panicking) is recorded, and the others keep running: the
//! runtime stops only when no worker is left, and then reports every exit.

use vstd::prelude::*;

verus! {

/// Why a worker stopped, with the id of its task.
#[derive(Debug, Clone)]
pub enum WorkerError {
    /// The worker loop returned `Ok`, which it never should.
    CleanExit(String),
    /// The worker loop failed or panicked: task id and error message.
    Failure(String, String),
}

/// The mathematical value of a [`WorkerError`].
pub enum WorkerErrorView {
    CleanExit(Seq<char>),
    Failure(Seq<char>, Seq<char>),
}

impl View for WorkerError {
    type V = WorkerErrorView;

    open spec fn view(&self) -> WorkerErrorView {
        match self {
            WorkerError::CleanExit(id) => WorkerErrorView::CleanExit(id@),
            WorkerError::Failure(id, err) => WorkerErrorView::Failure(id@, err@),
        }
    }
}

/// The views of a sequence of worker errors.
pub open spec fn errors_view(errors: Seq<WorkerError>) -> Seq<WorkerErrorView> {
    errors.map_values(|e: WorkerError| e@)
}

/// Tracks the workers of a concurrent runtime while they run.
pub struct WorkerSupervisor {
    limit: usize,
    remaining: usize,
    errors: Vec<WorkerError>,
}

/// The mathematical value of a [`WorkerSupervisor`].
pub struct SupervisorView {
    pub limit: nat,
    pub remaining: nat,
    pub errors: Seq<WorkerErrorView>,
}

impl View for WorkerSupervisor {
    type V = SupervisorView;

    closed spec fn view(&self) -> SupervisorView {
        SupervisorView {
            limit: self.limit as nat,
            remaining: self.remaining as nat,
            errors: errors_view(self.errors@),
        }
    }
}

/// A supervisor that has just spawned `limit` workers.
pub open spec fn spec_new_supervisor(limit: nat) -> SupervisorView {
    SupervisorView { limit, remaining: limit, errors: Seq::empty() }
}

/// A supervisor after one more worker exited: one fewer remains (never below
/// zero) and the exit is recorded.
pub open spec fn spec_record_exit(s: SupervisorView, e: WorkerErrorView) -> SupervisorView {
    SupervisorView {
        limit: s.limit,
        remaining: if s.remaining > 0 { (s.remaining - 1) as nat } else { 0 },
        errors: s.errors.push(e),
    }
}

/// A supervisor after a sequence of worker exits.
pub open spec fn spec_record_exits(s: SupervisorView, exits: Seq<WorkerErrorView>) -> SupervisorView
    decreases exits.len(),
{
    if exits.len() == 0 {
        s
    } else {
        spec_record_exit(spec_record_exits(s, exits.drop_last()), exits.last())
    }
}

impl WorkerSupervisor {
    /// Supervises `limit` freshly spawned workers.
    pub fn new(limit: usize) -> (r: WorkerSupervisor)
        ensures
            r@ == spec_new_supervisor(limit as nat),
    {
        let r = WorkerSupervisor { limit, remaining: limit, errors: Vec::new() };
        assert(errors_view(r.errors@) =~= Seq::<WorkerErrorView>::empty());
        r
    }

    /// The number of workers to spawn: one per concurrency slot.
    pub fn workers_to_spawn(&self) -> (r: usize)
        ensures
            r as nat == self@.limit,
    {
        self.limit
    }

    /// The number of workers still running.
    pub fn remaining(&self) -> (r: usize)
        ensures
            r as nat == self@.remaining,
    {
        self.remaining
    }

    /// Records that a worker exited.
    pub fn record_exit(&mut self, error: WorkerError)
        ensures
            final(self)@ == spec_record_exit(old(self)@, error@),
    {
        self.remaining = if self.remaining > 0 { self.remaining - 1 } else { 0 };
        let ghost e = error@;
        self.errors.push(error);
        assert(errors_view(self.errors@) =~= errors_view(old(self).errors@).push(e));
    }

    /// Whether every worker has exited, so the runtime must stop.
    pub fn all_exited(&self) -> (r: bool)
        ensures
            r == (self@.remaining == 0),
    {
        self.remaining == 0
    }

    /// The outcome of the runtime once the workers are gone: `Ok` when no
    /// worker exit was recorded, otherwise every recorded exit, in order.
    pub fn finish(self) -> (r: Result<(), ConcurrentWorkerErrors>)
        ensures
            r is Ok <==> self@.errors.len() == 0,
            r matches Err(e) ==> e@ == self@.errors,
    {
        if self.errors.len() == 0 {
            Ok(())
        } else {
            Err(ConcurrentWorkerErrors { errors: self.errors })
        }
    }
}

/// Law: after `k` of the `limit` workers have exited, `limit - k` remain, the
/// exits are recorded in the order they happened, and the runtime keeps
/// running while any worker remains; it stops after the last exit.
pub proof fn lemma_supervision(limit: nat, exits: Seq<WorkerErrorView>)
    requires
        exits.len() <= limit,
    ensures
        spec_record_exits(spec_new_supervisor(limit), exits).remaining == limit - exits.len(),
        spec_record_exits(spec_new_supervisor(limit), exits).errors == exits,
        spec_record_exits(spec_new_supervisor(limit), exits).limit == limit,
        (spec_record_exits(spec_new_supervisor(limit), exits).remaining == 0) <==> exits.len() == limit,
    decreases exits.len(),
{
    if exits.len() == 0 {
        assert(spec_new_supervisor(limit).errors =~= exits);
    } else {
        lemma_supervision(limit, exits.drop_last());
        assert(exits.drop_last().push(exits.last()) =~= exits);
    }
}

/// Law: a runtime whose workers all exited reports an error, and that error
/// lists every exit (the loop of a worker never ends on its own).
pub proof fn lemma_exits_are_errors(limit: nat, exits: Seq<WorkerErrorView>)
    requires
        exits.len() == limit,
        limit >= 1,
    ensures
        spec_record_exits(spec_new_supervisor(limit), exits).errors.len() > 0,
        spec_record_exits(spec_new_supervisor(limit), exits).errors == exits,
{
    lemma_supervision(limit, exits);
}

/// The errors of every worker of a concurrent runtime that stopped.
#[derive(Debug, Clone)]
pub struct ConcurrentWorkerErrors {
    errors: Vec<WorkerError>,
}

impl View for ConcurrentWorkerErrors {
    type V = Seq<WorkerErrorView>;

    closed spec fn view(&self) -> Seq<WorkerErrorView> {
        errors_view(self.errors@)
    }
}

/// A failed worker in the error report: task id and error message.
#[derive(Debug, Clone)]
pub struct WorkerFailurePayload {
    pub id: String,
    pub err: String,
}

/// The report of a stopped concurrent runtime, as it is serialized: a message,
/// the ids of the workers that exited cleanly, and the failed workers.
#[derive(Debug, Clone)]
pub struct WorkerErrorsPayload {
    pub message: &'static str,
    pub clean: Vec<String>,
    pub failures: Vec<WorkerFailurePayload>,
}

/// The ids of the workers that exited cleanly, in order.
pub open spec fn clean_ids(errors: Seq<WorkerErrorView>) -> Seq<Seq<char>>
    decreases errors.len(),
{
    if errors.len() == 0 {
        Seq::empty()
    } else {
        let rest = clean_ids(errors.drop_last());
        match errors.last() {
            WorkerErrorView::CleanExit(id) => rest.push(id),
            WorkerErrorView::Failure(_, _) => rest,
        }
    }
}

/// The `(id, error)` pairs of the workers that failed, in order.
pub open spec fn failure_entries(errors: Seq<WorkerErrorView>) -> Seq<(Seq<char>, Seq<char>)>
    decreases errors.len(),
{
    if errors.len() == 0 {
        Seq::empty()
    } else {
        let rest = failure_entries(errors.drop_last());
        match errors.last() {
            WorkerErrorView::CleanExit(_) => rest,
            WorkerErrorView::Failure(id, err) => rest.push((id, err)),
        }
    }
}

/// Law: every recorded exit appears in the report exactly once, either as a
/// clean exit or as a failure.
pub proof fn lemma_report_partitions_exits(errors: Seq<WorkerErrorView>)
    ensures
        clean_ids(errors).len() + failure_entries(errors).len() == errors.len(),
    decreases errors.len(),
{
    if errors.len() > 0 {
        lemma_report_partitions_exits(errors.drop_last());
    }
}

/// The message when every worker exited cleanly.
pub open spec fn all_clean_message() -> Seq<char> {
    "all concurrent workers exited cleanly (unexpected - loop should run forever)"@
}

/// The message otherwise.
pub open spec fn unexpected_exit_message() -> Seq<char> {
    "concurrent workers exited unexpectedly"@
}

/// The report message: the clean-exit message only when no worker failed and
/// at least one exited cleanly.
pub open spec fn spec_report_message(errors: Seq<WorkerErrorView>) -> Seq<char> {
    if failure_entries(errors).len() == 0 && clean_ids(errors).len() > 0 {
        all_clean_message()
    } else {
        unexpected_exit_message()
    }
}

/// The view of the failure entries of a payload.
pub open spec fn failures_view(f: Seq<WorkerFailurePayload>) -> Seq<(Seq<char>, Seq<char>)> {
    f.map_values(|p: WorkerFailurePayload| (p.id@, p.err@))
}

/// The view of a list of strings.
pub open spec fn strings_view(s: Seq<String>) -> Seq<Seq<char>> {
    s.map_values(|x: String| x@)
}

impl ConcurrentWorkerErrors {
    /// The recorded worker errors.
    pub fn errors(&self) -> (r: &Vec<WorkerError>)
        ensures
            errors_view(r@) == self@,
    {
        &self.errors
    }

    /// The report of these errors: clean exits and failures kept apart, each
    /// in the order they happened, with the message chosen by
    /// [`spec_report_message`].
    pub fn payload(&self) -> (r: WorkerErrorsPayload)
        ensures
            strings_view(r.clean@) == clean_ids(self@),
            failures_view(r.failures@) == failure_entries(self@),
            r.message@ == spec_report_message(self@),
    {
        let mut clean: Vec<String> = Vec::new();
        let mut failures: Vec<WorkerFailurePayload> = Vec::new();
        let n = self.errors.len();
        let ghost all = self@;
        let mut i: usize = 0;
        while i < n
            invariant
                n == self.errors@.len(),
                all == errors_view(self.errors@),
                i <= n,
                strings_view(clean@) == clean_ids(all.take(i as int)),
                failures_view(failures@) == failure_entries(all.take(i as int)),
            decreases n - i,
        {
            let ghost before = all.take(i as int);
            assert(all.take(i + 1).drop_last() =~= before);
            assert(all.take(i + 1).last() == self.errors@[i as int]@);
            match &self.errors[i] {
                WorkerError::CleanExit(id) => {
                    let ghost c = clean@;
                    clean.push(id.clone());
                    assert(strings_view(clean@) =~= strings_view(c).push(id@));
                },
                WorkerError::Failure(id, err) => {
                    let ghost f = failures@;
                    failures.push(WorkerFailurePayload { id: id.clone(), err: err.clone() });
                    assert(failures_view(failures@) =~= failures_view(f).push((id@, err@)));
                },
            }
            i = i + 1;
        }
        assert(all.take(n as int) =~= all);
        let message = if failures.len() == 0 && clean.len() > 0 {
            "all concurrent workers exited cleanly (unexpected - loop should run forever)"
        } else {
            "concurrent workers exited unexpectedly"
        };
        WorkerErrorsPayload { message, clean, failures }
    }
}

} // verus!
