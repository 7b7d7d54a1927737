//! The Lambda runtime: a handler service, the function's configuration, a
//! Runtime API client, a concurrency limit, and the resources that take part
//! in the SnapStart restore lifecycle.

use vstd::prelude::*;
use std::sync::Arc;
use crate::api_client::{ClientSettings, PooledClientBuilder};
use crate::concurrency::{concurrency_limit, opt_str_view, polling_mode, pool_size, spec_concurrency_limit, PollingMode};
use crate::origin::BaseUri;
use crate::snapstart::{is_snapstart_env, spec_is_snapstart, spec_start, LifecycleAction, RestoreLifecycle};

verus! {

/// The settings of the client of a runtime: the connector, the endpoint of the
/// Runtime API, and one pooled connection per worker.
pub open spec fn runtime_client_settings<K>(runtime_api: BaseUri, connector: K, limit: u32) -> ClientSettings<K> {
    ClientSettings { base: runtime_api, connector, pool_size: Some(limit as usize) }
}

/// The configuration of the function, as the Lambda environment gives it.
#[derive(Debug, Clone)]
pub struct Config {
    pub function_name: String,
    pub memory: i32,
    pub version: String,
    pub log_stream: String,
    pub log_group: String,
}

/// A Lambda runtime executing a handler service on incoming invocations.
pub struct Runtime<S, C, R> {
    service: S,
    config: Arc<Config>,
    client: Arc<C>,
    concurrency_limit: u32,
    snapstart_resources: Vec<R>,
}

impl<S, C, R> Runtime<S, C, R> {
    /// The service handling invocations.
    pub closed spec fn spec_service(&self) -> S {
        self.service
    }

    /// The function's configuration.
    pub closed spec fn spec_config(&self) -> Arc<Config> {
        self.config
    }

    /// The Runtime API client.
    pub closed spec fn spec_client(&self) -> Arc<C> {
        self.client
    }

    /// The number of workers the runtime may run at once.
    pub closed spec fn spec_concurrency_limit(&self) -> u32 {
        self.concurrency_limit
    }

    /// The registered SnapStart resources, in registration order.
    pub closed spec fn spec_resources(&self) -> Seq<R> {
        self.snapstart_resources@
    }

    /// The concurrency limit is never below one.
    pub closed spec fn well_formed(&self) -> bool {
        self.concurrency_limit >= 1
    }

    /// Creates a runtime for `handler`, as the Lambda environment describes
    /// it: the function's configuration, the endpoint of the Runtime API, and
    /// the raw value of `AWS_LAMBDA_MAX_CONCURRENCY` (`None` when unset). The
    /// concurrency limit is the configured positive value, or `1`. Every worker
    /// is started up front, so `make_client` builds the client from settings
    /// with the given connector, that endpoint, and a pool size hint of one
    /// connection per worker; `wrap` then turns the handler into the service
    /// that answers invocations through that client. No SnapStart resource is
    /// registered yet.
    pub fn new<F, K, MC, W>(
        handler: F,
        config: Config,
        connector: K,
        runtime_api: BaseUri,
        max_concurrency: Option<&str>,
        make_client: MC,
        wrap: W,
    ) -> (r: Self)
        where MC: FnOnce(ClientSettings<K>) -> C, W: FnOnce(F, &Arc<C>) -> S
        requires
            forall|settings: ClientSettings<K>| call_requires(make_client, (settings,)),
            forall|client: Arc<C>| call_requires(wrap, (handler, &client)),
        ensures
            r.spec_concurrency_limit() == spec_concurrency_limit(opt_str_view(max_concurrency)),
            call_ensures(make_client,
                (runtime_client_settings(runtime_api, connector, r.spec_concurrency_limit()),),
                *r.spec_client()),
            call_ensures(wrap, (handler, &r.spec_client()), r.spec_service()),
            *r.spec_config() == config,
            r.spec_resources() == Seq::<R>::empty(),
            r.well_formed(),
    {
        let limit = concurrency_limit(max_concurrency);
        let settings = PooledClientBuilder::new(connector).with_pool_size(pool_size(limit)).build(Some(runtime_api));
        let client = Arc::new(make_client(settings));
        let service = wrap(handler, &client);
        Runtime {
            service,
            config: Arc::new(config),
            client,
            concurrency_limit: limit,
            snapstart_resources: Vec::new(),
        }
    }

    /// Wraps the service in a layer (given as the function that applies it).
    /// For an incoming invocation, this layer runs before any layer added
    /// earlier. Everything else is kept.
    pub fn layer<T, L>(self, layer: L) -> (r: Runtime<T, C, R>)
        where L: FnOnce(S) -> T
        requires
            call_requires(layer, (self.spec_service(),)),
        ensures
            call_ensures(layer, (self.spec_service(),), r.spec_service()),
            r.spec_config() == self.spec_config(),
            r.spec_client() == self.spec_client(),
            r.spec_concurrency_limit() == self.spec_concurrency_limit(),
            r.spec_resources() == self.spec_resources(),
            r.well_formed() == self.well_formed(),
    {
        Runtime {
            service: layer(self.service),
            config: self.config,
            client: self.client,
            concurrency_limit: self.concurrency_limit,
            snapstart_resources: self.snapstart_resources,
        }
    }

    /// Whether the execution environment has SnapStart enabled, given the raw
    /// value of `AWS_LAMBDA_INITIALIZATION_TYPE`.
    pub fn is_snapstart(&self, initialization_type: Option<&str>) -> (r: bool)
        ensures
            r == spec_is_snapstart(opt_str_view(initialization_type)),
    {
        is_snapstart_env(initialization_type)
    }

    /// Registers a resource whose hooks run around the SnapStart
    /// snapshot/restore boundary. Register foundations first: teardown runs in
    /// reverse registration order and rebuild in registration order.
    pub fn register_snapstart_resource(self, resource: R) -> (r: Self)
        ensures
            r.spec_resources() == self.spec_resources().push(resource),
            r.spec_service() == self.spec_service(),
            r.spec_config() == self.spec_config(),
            r.spec_client() == self.spec_client(),
            r.spec_concurrency_limit() == self.spec_concurrency_limit(),
            r.well_formed() == self.well_formed(),
    {
        let mut s = self;
        s.snapstart_resources.push(resource);
        s
    }

    /// The registered SnapStart resources, in registration order.
    pub fn snapstart_resources(&self) -> (r: &Vec<R>)
        ensures
            r@ == self.spec_resources(),
    {
        &self.snapstart_resources
    }

    /// The number of workers the runtime may run at once.
    pub fn concurrency_limit(&self) -> (r: u32)
        ensures
            r == self.spec_concurrency_limit(),
    {
        self.concurrency_limit
    }

    /// The Runtime API client.
    pub fn client(&self) -> (r: &Arc<C>)
        ensures
            *r == self.spec_client(),
    {
        &self.client
    }

    /// The function's configuration.
    pub fn config(&self) -> (r: &Arc<Config>)
        ensures
            *r == self.spec_config(),
    {
        &self.config
    }

    /// How the runtime polls for events when run concurrently: concurrently
    /// when the limit exceeds one, sequentially otherwise.
    pub fn polling_mode(&self) -> (r: PollingMode)
        ensures
            r == (if self.spec_concurrency_limit() > 1 { PollingMode::Concurrent } else { PollingMode::Sequential }),
    {
        polling_mode(self.concurrency_limit)
    }

    /// The SnapStart restore lifecycle of this runtime, over its registered
    /// resources; it is over at once when SnapStart is not enabled.
    pub fn restore_lifecycle<E>(&self, initialization_type: Option<&str>) -> (r: (RestoreLifecycle<E>, LifecycleAction<E>))
        ensures
            r == spec_start::<E>(self.spec_resources().len() as usize,
                spec_is_snapstart(opt_str_view(initialization_type))),
            r.0.well_formed(),
    {
        let snapstart = is_snapstart_env(initialization_type);
        RestoreLifecycle::start(self.snapstart_resources.len(), snapstart)
    }

    /// Takes the runtime apart to run it.
    pub fn into_parts(self) -> (r: (S, Arc<Config>, Arc<C>, u32, Vec<R>))
        ensures
            r.0 == self.spec_service(),
            r.1 == self.spec_config(),
            r.2 == self.spec_client(),
            r.3 == self.spec_concurrency_limit(),
            r.4@ == self.spec_resources(),
    {
        (self.service, self.config, self.client, self.concurrency_limit, self.snapstart_resources)
    }
}

/// Law: the client of a runtime is built with one pooled connection per
/// worker: its pool size hint is the concurrency limit itself, whatever the
/// limit; the endpoint and the connector are the ones given.
pub proof fn lemma_pool_hint_is_the_limit<K>(runtime_api: BaseUri, connector: K, limit: u32)
    ensures
        runtime_client_settings(runtime_api, connector, limit).pool_size == Some(limit as usize),
        runtime_client_settings(runtime_api, connector, limit).base == runtime_api,
        runtime_client_settings(runtime_api, connector, limit).connector == connector,
{
}

} // verus!
