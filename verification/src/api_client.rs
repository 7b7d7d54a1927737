//! The Runtime API client and its builder.
//!
//! The client holds its base URI and a pooled HTTP client. After a SnapStart
//! restore the pool is rebuilt once: every later call uses the fresh pool,
//! since the connections of the initial one did not survive the snapshot.

use vstd::prelude::*;
use crate::origin::BaseUri;

verus! {

/// Builder of a [`PooledClient`]: the connector, the endpoint, and a pool
/// size hint.
pub struct PooledClientBuilder<K> {
    connector: K,
    uri: Option<BaseUri>,
    pool_size: Option<usize>,
}

/// What a client is built from.
pub struct ClientSettings<K> {
    /// The base URI of the Runtime API.
    pub base: BaseUri,
    /// The HTTP connector.
    pub connector: K,
    /// The pool size hint, when one was given.
    pub pool_size: Option<usize>,
}

impl<K> PooledClientBuilder<K> {
    /// Whether an endpoint was given, so that building needs no
    /// `AWS_LAMBDA_RUNTIME_API`.
    pub fn has_endpoint(&self) -> (r: bool)
        ensures
            r == self.spec_uri() is Some,
    {
        self.uri.is_some()
    }

    /// The connector.
    pub closed spec fn spec_connector(&self) -> K {
        self.connector
    }

    /// The endpoint, when one was given.
    pub closed spec fn spec_uri(&self) -> Option<BaseUri> {
        self.uri
    }

    /// The pool size hint, when one was given.
    pub closed spec fn spec_pool_size(&self) -> Option<usize> {
        self.pool_size
    }

    /// A builder with the given connector, no endpoint and no pool size hint.
    pub fn new(connector: K) -> (r: Self)
        ensures
            r.spec_connector() == connector,
            r.spec_uri() is None,
            r.spec_pool_size() is None,
    {
        PooledClientBuilder { connector, uri: None, pool_size: None }
    }

    /// Uses a given HTTP connector; everything else is kept.
    pub fn with_connector(self, connector: K) -> (r: Self)
        ensures
            r.spec_connector() == connector,
            r.spec_uri() == self.spec_uri(),
            r.spec_pool_size() == self.spec_pool_size(),
    {
        PooledClientBuilder { connector, uri: self.uri, pool_size: self.pool_size }
    }

    /// Uses a given base URI; everything else is kept.
    pub fn with_endpoint(self, uri: BaseUri) -> (r: Self)
        ensures
            r.spec_uri() == Some(uri),
            r.spec_connector() == self.spec_connector(),
            r.spec_pool_size() == self.spec_pool_size(),
    {
        PooledClientBuilder { connector: self.connector, uri: Some(uri), pool_size: self.pool_size }
    }

    /// Provides a pool size hint; everything else is kept. With concurrent
    /// polling it should be at least the maximum concurrency.
    pub fn with_pool_size(self, pool_size: usize) -> (r: Self)
        ensures
            r.spec_pool_size() == Some(pool_size),
            r.spec_connector() == self.spec_connector(),
            r.spec_uri() == self.spec_uri(),
    {
        PooledClientBuilder { connector: self.connector, uri: self.uri, pool_size: Some(pool_size) }
    }

    /// The settings of the client: the endpoint given to the builder, or else
    /// the one from `AWS_LAMBDA_RUNTIME_API` (parsed by the caller; one of the
    /// two must be present).
    pub fn build(self, runtime_api: Option<BaseUri>) -> (r: ClientSettings<K>)
        requires
            self.spec_uri() is Some || runtime_api is Some,
        ensures
            r.base == (match self.spec_uri() {
                Some(u) => u,
                None => runtime_api->0,
            }),
            r.connector == self.spec_connector(),
            r.pool_size == self.spec_pool_size(),
    {
        let base = match self.uri {
            Some(u) => u,
            None => runtime_api.unwrap(),
        };
        ClientSettings { base, connector: self.connector, pool_size: self.pool_size }
    }
}

/// A Runtime API client whose connection pool can be rebuilt once after a
/// SnapStart restore.
pub struct PooledClient<K, H> {
    base: BaseUri,
    client: H,
    connector: K,
    pool_size: Option<usize>,
    restored: Option<H>,
}

impl<K, H> PooledClient<K, H> {
    /// The base URI.
    pub closed spec fn spec_base(&self) -> BaseUri {
        self.base
    }

    /// The pool built with the client.
    pub closed spec fn spec_initial_pool(&self) -> H {
        self.client
    }

    /// The pool built after a restore, once there is one.
    pub closed spec fn spec_restored(&self) -> Option<H> {
        self.restored
    }

    /// The pool size hint.
    pub closed spec fn spec_pool_size(&self) -> Option<usize> {
        self.pool_size
    }

    /// The pool that calls use: the restored one once there is one, the
    /// initial one before.
    pub open spec fn spec_active(&self) -> H {
        spec_pool_in_use(self.spec_initial_pool(), self.spec_restored())
    }

    /// A client from its settings and the pool built for them.
    pub fn with(settings: ClientSettings<K>, client: H) -> (r: Self)
        ensures
            r.spec_base() == settings.base,
            r.spec_initial_pool() == client,
            r.spec_restored() is None,
            r.spec_pool_size() == settings.pool_size,
    {
        PooledClient {
            base: settings.base,
            client,
            connector: settings.connector,
            pool_size: settings.pool_size,
            restored: None,
        }
    }

    /// The base URI of the Runtime API.
    pub fn base(&self) -> (r: &BaseUri)
        ensures
            *r == self.spec_base(),
    {
        &self.base
    }

    /// The connector and pool size hint to build a fresh pool with.
    pub fn pool_settings(&self) -> (r: (&K, Option<usize>))
        ensures
            r.1 == self.spec_pool_size(),
    {
        (&self.connector, self.pool_size)
    }

    /// Replaces the pool after a SnapStart restore. Only the first reset takes
    /// effect: the restore happens once, before any concurrent polling.
    pub fn reset_pool(&mut self, fresh: H)
        ensures
            final(self).spec_restored() == spec_after_reset(old(self).spec_restored(), fresh),
            final(self).spec_base() == old(self).spec_base(),
            final(self).spec_initial_pool() == old(self).spec_initial_pool(),
            final(self).spec_pool_size() == old(self).spec_pool_size(),
    {
        if self.restored.is_none() {
            self.restored = Some(fresh);
        }
    }

    /// The pool a call goes through.
    pub fn active(&self) -> (r: &H)
        ensures
            *r == self.spec_active(),
    {
        match &self.restored {
            Some(h) => h,
            None => &self.client,
        }
    }
}

/// Builder of a legacy [`Client`] (superseded by [`PooledClientBuilder`]).
pub struct ClientBuilder<K> {
    connector: K,
    uri: Option<BaseUri>,
    pool_size: Option<usize>,
}

impl<K> ClientBuilder<K> {
    /// Whether an endpoint was given, so that building needs no
    /// `AWS_LAMBDA_RUNTIME_API`.
    pub fn has_endpoint(&self) -> (r: bool)
        ensures
            r == self.spec_uri() is Some,
    {
        self.uri.is_some()
    }

    /// The connector.
    pub closed spec fn spec_connector(&self) -> K {
        self.connector
    }

    /// The endpoint, when one was given.
    pub closed spec fn spec_uri(&self) -> Option<BaseUri> {
        self.uri
    }

    /// The pool size hint, when one was given.
    pub closed spec fn spec_pool_size(&self) -> Option<usize> {
        self.pool_size
    }

    /// A builder with the given connector, no endpoint and no pool size hint.
    pub fn new(connector: K) -> (r: Self)
        ensures
            r.spec_connector() == connector,
            r.spec_uri() is None,
            r.spec_pool_size() is None,
    {
        ClientBuilder { connector, uri: None, pool_size: None }
    }

    /// Uses a given HTTP connector; everything else is kept.
    pub fn with_connector(self, connector: K) -> (r: Self)
        ensures
            r.spec_connector() == connector,
            r.spec_uri() == self.spec_uri(),
            r.spec_pool_size() == self.spec_pool_size(),
    {
        ClientBuilder { connector, uri: self.uri, pool_size: self.pool_size }
    }

    /// Uses a given base URI; everything else is kept.
    pub fn with_endpoint(self, uri: BaseUri) -> (r: Self)
        ensures
            r.spec_uri() == Some(uri),
            r.spec_connector() == self.spec_connector(),
            r.spec_pool_size() == self.spec_pool_size(),
    {
        ClientBuilder { connector: self.connector, uri: Some(uri), pool_size: self.pool_size }
    }

    /// Provides a pool size hint; everything else is kept.
    pub fn with_pool_size(self, pool_size: usize) -> (r: Self)
        ensures
            r.spec_pool_size() == Some(pool_size),
            r.spec_connector() == self.spec_connector(),
            r.spec_uri() == self.spec_uri(),
    {
        ClientBuilder { connector: self.connector, uri: self.uri, pool_size: Some(pool_size) }
    }

    /// The settings of the client: the endpoint given to the builder, or else
    /// the one from `AWS_LAMBDA_RUNTIME_API` (one of the two must be present).
    pub fn build(self, runtime_api: Option<BaseUri>) -> (r: ClientSettings<K>)
        requires
            self.spec_uri() is Some || runtime_api is Some,
        ensures
            r.base == (match self.spec_uri() {
                Some(u) => u,
                None => runtime_api->0,
            }),
            r.connector == self.spec_connector(),
            r.pool_size == self.spec_pool_size(),
    {
        let base = match self.uri {
            Some(u) => u,
            None => runtime_api.unwrap(),
        };
        ClientSettings { base, connector: self.connector, pool_size: self.pool_size }
    }
}

/// A legacy Runtime API client: a base URI and a pooled HTTP client that is
/// never rebuilt.
pub struct Client<H> {
    /// The runtime API URI.
    pub base: BaseUri,
    /// The client that manages the API connections.
    pub client: H,
}

impl<H> Client<H> {
    /// A builder for a client with the given connector.
    pub fn builder<K>(connector: K) -> (r: ClientBuilder<K>)
        ensures
            r.spec_connector() == connector,
            r.spec_uri() is None,
            r.spec_pool_size() is None,
    {
        ClientBuilder::new(connector)
    }

    /// A client from its settings and the pool built for them.
    pub fn with<K>(settings: ClientSettings<K>, client: H) -> (r: Self)
        ensures
            r.base == settings.base,
            r.client == client,
    {
        Client { base: settings.base, client }
    }
}

impl<K, H> PooledClient<K, H> {
    /// A builder for a pooled client with the given connector.
    pub fn builder(connector: K) -> (r: PooledClientBuilder<K>)
        ensures
            r.spec_connector() == connector,
            r.spec_uri() is None,
            r.spec_pool_size() is None,
    {
        PooledClientBuilder::new(connector)
    }
}

/// The restored pool after a reset with `fresh`: the first reset sets it,
/// later ones leave it.
pub open spec fn spec_after_reset<H>(restored: Option<H>, fresh: H) -> Option<H> {
    match restored {
        Some(h) => Some(h),
        None => Some(fresh),
    }
}

/// The pool in use given the initial pool and the restored one.
pub open spec fn spec_pool_in_use<H>(initial: H, restored: Option<H>) -> H {
    match restored {
        Some(h) => h,
        None => initial,
    }
}

/// Law: before any reset calls use the initial pool; after a reset they use
/// the fresh pool, and a later reset does not replace it.
pub proof fn lemma_reset_pool_is_used<H>(initial: H, first: H, second: H)
    ensures
        spec_pool_in_use(initial, None) == initial,
        spec_pool_in_use(initial, spec_after_reset(None, first)) == first,
        spec_pool_in_use(initial, spec_after_reset(spec_after_reset(None, first), second)) == first,
{
}

} // verus!
