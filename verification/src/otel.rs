//! OpenTelemetry instrumentation of Lambda invocations.
//!
//! Every invocation is traced in a span carrying the OpenTelemetry FaaS
//! attributes: the function name, the trigger, the invocation id, and whether
//! the invocation is the cold start of the execution environment (only the
//! first invocation a service handles is). Once an invocation completes, its
//! span is closed before the flush function runs, so the flush includes it.

use vstd::prelude::*;
use vstd::pervasive::cloned;

verus! {

/// The possible values of the OpenTelemetry `faas.trigger` attribute.
#[derive(Debug, Clone, Copy, PartialEq, Eq, Structural)]
#[non_exhaustive]
pub enum OpenTelemetryFaasTrigger {
    /// A response to some data source operation such as a database or filesystem read/write.
    Datasource,
    /// To provide an answer to an inbound HTTP request.
    Http,
    /// A function is set to be executed when messages are sent to a messaging system.
    PubSub,
    /// A function is scheduled to be executed regularly.
    Timer,
    /// If none of the others apply.
    Other,
}

/// The attribute value of a trigger.
pub open spec fn spec_trigger_name(t: OpenTelemetryFaasTrigger) -> Seq<char> {
    match t {
        OpenTelemetryFaasTrigger::Datasource => "datasource"@,
        OpenTelemetryFaasTrigger::Http => "http"@,
        OpenTelemetryFaasTrigger::PubSub => "pubsub"@,
        OpenTelemetryFaasTrigger::Timer => "timer"@,
        OpenTelemetryFaasTrigger::Other => "other"@,
    }
}

impl OpenTelemetryFaasTrigger {
    /// The value of the `faas.trigger` attribute for this trigger.
    pub fn as_str(&self) -> (r: &'static str)
        ensures
            r@ == spec_trigger_name(*self),
    {
        match self {
            OpenTelemetryFaasTrigger::Datasource => "datasource",
            OpenTelemetryFaasTrigger::Http => "http",
            OpenTelemetryFaasTrigger::PubSub => "pubsub",
            OpenTelemetryFaasTrigger::Timer => "timer",
            OpenTelemetryFaasTrigger::Other => "other",
        }
    }

    /// The value of the `faas.trigger` attribute, as an owned string.
    pub fn to_string(&self) -> (r: String)
        ensures
            r@ == spec_trigger_name(*self),
    {
        self.as_str().to_owned()
    }
}

impl Default for OpenTelemetryFaasTrigger {
    /// The default trigger is `Datasource`.
    fn default() -> (r: Self)
        ensures
            r == OpenTelemetryFaasTrigger::Datasource,
    {
        OpenTelemetryFaasTrigger::Datasource
    }
}

/// Layer that adds OpenTelemetry tracing to the invocations of a service. It
/// holds a function that flushes OpenTelemetry after each invocation.
pub struct OpenTelemetryLayer<F> {
    flush_fn: F,
    otel_attribute_trigger: OpenTelemetryFaasTrigger,
}

impl<F> OpenTelemetryLayer<F> {
    /// The flush function.
    pub closed spec fn spec_flush_fn(&self) -> F {
        self.flush_fn
    }

    /// The configured trigger.
    pub closed spec fn spec_trigger(&self) -> OpenTelemetryFaasTrigger {
        self.otel_attribute_trigger
    }

    /// Creates a layer with the provided flush function; the trigger is the
    /// default, `Datasource`.
    pub fn new(flush_fn: F) -> (r: Self)
        ensures
            r.spec_flush_fn() == flush_fn,
            r.spec_trigger() == OpenTelemetryFaasTrigger::Datasource,
    {
        Self { flush_fn, otel_attribute_trigger: OpenTelemetryFaasTrigger::Datasource }
    }

    /// Configures the `faas.trigger` attribute of the spans.
    pub fn with_trigger(self, trigger: OpenTelemetryFaasTrigger) -> (r: Self)
        ensures
            r.spec_flush_fn() == self.spec_flush_fn(),
            r.spec_trigger() == trigger,
    {
        Self { flush_fn: self.flush_fn, otel_attribute_trigger: trigger }
    }

    /// The configured trigger.
    pub fn trigger(&self) -> (r: OpenTelemetryFaasTrigger)
        ensures
            r == self.spec_trigger(),
    {
        self.otel_attribute_trigger
    }

    /// Wraps `inner` in a traced service. The service starts in the cold-start
    /// state and holds a clone of the flush function.
    pub fn layer<S>(&self, inner: S) -> (r: OpenTelemetryService<S, F>)
        where F: Clone
        ensures
            r.spec_inner() == inner,
            r.spec_coldstart(),
            r.spec_trigger()@ == spec_trigger_name(self.spec_trigger()),
            cloned(self.spec_flush_fn(), r.spec_flush_fn()),
    {
        OpenTelemetryService {
            inner,
            flush_fn: self.flush_fn.clone(),
            coldstart: true,
            otel_attribute_trigger: self.otel_attribute_trigger.to_string(),
        }
    }
}

/// The fields of the span that traces one invocation.
#[derive(Debug, Clone)]
pub struct InvocationSpan {
    /// `otel.name`: the function name.
    pub otel_name: String,
    /// `faas.name`: the function name.
    pub faas_name: String,
    /// `faas.trigger`.
    pub faas_trigger: String,
    /// `faas.invocation_id`: the request id.
    pub invocation_id: String,
    /// `faas.coldstart`: whether this is the first invocation of the service.
    pub coldstart: bool,
    /// `tenant_id`, recorded only when the invocation has one.
    pub tenant_id: Option<String>,
}

/// Service created by [`OpenTelemetryLayer`].
pub struct OpenTelemetryService<S, F> {
    inner: S,
    flush_fn: F,
    coldstart: bool,
    otel_attribute_trigger: String,
}

impl<S, F> OpenTelemetryService<S, F> {
    /// The wrapped service.
    pub closed spec fn spec_inner(&self) -> S {
        self.inner
    }

    /// The flush function.
    pub closed spec fn spec_flush_fn(&self) -> F {
        self.flush_fn
    }

    /// Whether the next invocation is a cold start.
    pub closed spec fn spec_coldstart(&self) -> bool {
        self.coldstart
    }

    /// The `faas.trigger` value.
    pub closed spec fn spec_trigger(&self) -> String {
        self.otel_attribute_trigger
    }

    /// Whether the next invocation is a cold start.
    pub fn coldstart(&self) -> (r: bool)
        ensures
            r == self.spec_coldstart(),
    {
        self.coldstart
    }

    /// Starts an invocation: gives the fields of its span, with `coldstart`
    /// telling whether it is the first one, and leaves the service warm.
    pub fn begin_invocation(&mut self, function_name: &str, request_id: &str, tenant_id: Option<&str>) -> (r: InvocationSpan)
        ensures
            r.otel_name@ == function_name@,
            r.faas_name@ == function_name@,
            r.faas_trigger@ == old(self).spec_trigger()@,
            r.invocation_id@ == request_id@,
            r.coldstart == old(self).spec_coldstart(),
            r.tenant_id is Some <==> tenant_id is Some,
            r.tenant_id matches Some(t) ==> tenant_id matches Some(u) && t@ == u@,
            !final(self).spec_coldstart(),
            final(self).spec_inner() == old(self).spec_inner(),
            final(self).spec_flush_fn() == old(self).spec_flush_fn(),
            final(self).spec_trigger()@ == old(self).spec_trigger()@,
    {
        let span = InvocationSpan {
            otel_name: function_name.to_owned(),
            faas_name: function_name.to_owned(),
            faas_trigger: self.otel_attribute_trigger.clone(),
            invocation_id: request_id.to_owned(),
            coldstart: self.coldstart,
            tenant_id: match tenant_id {
                Some(t) => Some(t.to_owned()),
                None => None,
            },
        };
        self.coldstart = false;
        span
    }

    /// The wrapped service, to be called for the invocation.
    pub fn inner_mut(&mut self) -> (r: &mut S)
        ensures
            *r == old(self).spec_inner(),
            final(self).spec_inner() == *final(r),
            final(self).spec_flush_fn() == old(self).spec_flush_fn(),
            final(self).spec_coldstart() == old(self).spec_coldstart(),
            final(self).spec_trigger() == old(self).spec_trigger(),
    {
        &mut self.inner
    }

    /// The flush function, cloned for the future of an invocation.
    pub fn flush_fn(&self) -> (r: &F)
        ensures
            *r == self.spec_flush_fn(),
    {
        &self.flush_fn
    }
}

/// The cold-start flags of `n` invocations of a service, each recording the
/// current flag and leaving the service warm, as
/// [`OpenTelemetryService::begin_invocation`] does.
pub open spec fn coldstart_flags(start: bool, n: nat) -> Seq<bool>
    decreases n,
{
    if n == 0 {
        Seq::empty()
    } else {
        seq![start] + coldstart_flags(false, (n - 1) as nat)
    }
}

/// Law: a freshly layered service reports a cold start on its first
/// invocation and on no later one.
pub proof fn lemma_only_first_invocation_is_cold(n: nat)
    ensures
        coldstart_flags(true, n) == Seq::new(n, |i: int| i == 0),
{
    if n > 0 {
        lemma_warm_stays_warm((n - 1) as nat);
        assert(seq![true] + Seq::new((n - 1) as nat, |i: int| false) =~= Seq::new(n, |i: int| i == 0));
    } else {
        assert(coldstart_flags(true, n) =~= Seq::new(n, |i: int| i == 0));
    }
}

/// A warm service stays warm.
pub proof fn lemma_warm_stays_warm(n: nat)
    ensures
        coldstart_flags(false, n) == Seq::new(n, |i: int| false),
    decreases n,
{
    if n > 0 {
        lemma_warm_stays_warm((n - 1) as nat);
        assert(seq![false] + Seq::new((n - 1) as nat, |i: int| false) =~= Seq::new(n, |i: int| false));
    } else {
        assert(coldstart_flags(false, n) =~= Seq::new(n, |i: int| false));
    }
}

/// Law: over any run of invocations of a service fresh from
/// [`OpenTelemetryLayer::layer`], the span of the first invocation records a
/// cold start and the span of every later one does not. `before[i]` and
/// `after[i]` are the service just before and just after the `i`-th
/// [`OpenTelemetryService::begin_invocation`], which gave `spans[i]`; between
/// two invocations the cold-start flag is left as it was (as
/// [`OpenTelemetryService::inner_mut`] leaves it).
pub proof fn lemma_coldstart_over_invocations<S, F>(
    before: Seq<OpenTelemetryService<S, F>>,
    after: Seq<OpenTelemetryService<S, F>>,
    spans: Seq<InvocationSpan>,
)
    requires
        before.len() == spans.len(),
        after.len() == spans.len(),
        spans.len() > 0 ==> before[0].spec_coldstart(),
        forall|i: int| 0 <= i < spans.len() ==> #[trigger] spans[i].coldstart == before[i].spec_coldstart()
            && !after[i].spec_coldstart(),
        forall|i: int| 0 < i < spans.len() ==> #[trigger] before[i].spec_coldstart() == after[i - 1].spec_coldstart(),
    ensures
        spans.map_values(|s: InvocationSpan| s.coldstart) == coldstart_flags(true, spans.len()),
        forall|i: int| 0 <= i < spans.len() ==> (#[trigger] spans[i].coldstart <==> i == 0),
{
    assert forall|i: int| 0 <= i < spans.len() implies (#[trigger] spans[i].coldstart <==> i == 0) by {
        if i > 0 {
            assert(before[i].spec_coldstart() == after[i - 1].spec_coldstart());
            assert(spans[i - 1].coldstart == before[i - 1].spec_coldstart());
            assert(!after[i - 1].spec_coldstart());
        }
    }
    lemma_only_first_invocation_is_cold(spans.len());
    assert(spans.map_values(|s: InvocationSpan| s.coldstart) =~= Seq::new(spans.len(), |i: int| i == 0));
}

/// The future of a traced invocation: the inner future and the flush function.
pub struct OpenTelemetryFuture<Fut, F> {
    future: Option<Fut>,
    flush_fn: F,
}

impl<Fut, F> OpenTelemetryFuture<Fut, F> {
    /// The inner future, while the invocation runs.
    pub closed spec fn spec_future(&self) -> Option<Fut> {
        self.future
    }

    /// The flush function.
    pub closed spec fn spec_flush_fn(&self) -> F {
        self.flush_fn
    }

    /// The future of an invocation that has just started.
    pub fn new(future: Fut, flush_fn: F) -> (r: Self)
        ensures
            r.spec_future() == Some(future),
            r.spec_flush_fn() == flush_fn,
    {
        OpenTelemetryFuture { future: Some(future), flush_fn }
    }

    /// The inner future while the invocation runs.
    pub fn future_mut(&mut self) -> (r: Option<&mut Fut>)
        ensures
            r is Some <==> old(self).spec_future() is Some,
            r matches Some(f) ==> *f == old(self).spec_future()->0
                && final(self).spec_future() == Some(*final(f)),
            r is None ==> final(self).spec_future() == old(self).spec_future(),
            final(self).spec_flush_fn() == old(self).spec_flush_fn(),
    {
        match &mut self.future {
            Some(f) => Some(f),
            None => None,
        }
    }

    /// Ends the invocation once the inner future is ready: takes the future
    /// out (so that dropping it closes the span) and gives the flush function
    /// to call afterwards. A completed future holds no inner future any more.
    pub fn complete(&mut self) -> (r: (Fut, &F))
        requires
            old(self).spec_future() is Some,
        ensures
            r.0 == old(self).spec_future()->0,
            *r.1 == old(self).spec_flush_fn(),
            final(self).spec_future() is None,
            final(self).spec_flush_fn() == old(self).spec_flush_fn(),
    {
        let f = self.future.take().unwrap();
        (f, &self.flush_fn)
    }
}

} // verus!
