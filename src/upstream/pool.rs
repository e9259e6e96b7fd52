//! One HTTPS client per upstream server name, created on first use and reused after.
use crate::clock::millis;
use bytes::Bytes;
use dashmap::DashMap;
use http_body_util::Full;
use hyper_rustls::HttpsConnector;
use hyper_util::client::legacy::connect::dns::GaiResolver;
use hyper_util::client::legacy::connect::HttpConnector;
use hyper_util::client::legacy::Client;
use std::collections::hash_map::RandomState;
use std::sync::Arc;
use std::time::Duration;
use vstd::prelude::*;

verus! {

#[verifier::external_type_specification]
#[verifier::external_body]
#[verifier::reject_recursive_types(C)]
#[verifier::reject_recursive_types(B)]
pub struct ExClient<C, B>(Client<C, B>);

#[verifier::external_type_specification]
#[verifier::external_body]
#[verifier::reject_recursive_types(T)]
pub struct ExHttpsConnector<T>(HttpsConnector<T>);

#[verifier::external_type_specification]
#[verifier::external_body]
#[verifier::reject_recursive_types(R)]
pub struct ExHttpConnector<R>(HttpConnector<R>);

#[verifier::external_type_specification]
#[verifier::external_body]
pub struct ExGaiResolver(GaiResolver);

#[verifier::external_type_specification]
#[verifier::external_body]
#[verifier::reject_recursive_types(D)]
pub struct ExFull<D>(Full<D>);

#[verifier::external_type_specification]
#[verifier::external_body]
pub struct ExBytes(Bytes);

/// An HTTPS-capable client that pools its own connections.
pub type HttpClient = Client<HttpsConnector<HttpConnector<GaiResolver>>, Full<Bytes>>;

/// Server name to shared client.
pub type ClientMap = DashMap<String, Arc<HttpClient>, RandomState>;

/// The clients a map holds, by server name.
pub uninterp spec fn clients_of(m: ClientMap) -> Map<Seq<char>, Arc<HttpClient>>;

/// Relies on `DashMap::new`: a new map holds nothing.
#[verifier::external_body]
fn clients_new() -> (r: ClientMap)
    ensures
        clients_of(r).dom() == Set::<Seq<char>>::empty(),
{
    DashMap::new()
}

/// Relies on `DashMap::get`: the client stored under the name, if any (the shared handle).
#[verifier::external_body]
fn clients_get(m: &ClientMap, k: &str) -> (r: Option<Arc<HttpClient>>)
    ensures
        match r {
            Some(c) => clients_of(*m).contains_key(k@) && clients_of(*m)[k@] == c,
            None => !clients_of(*m).contains_key(k@),
        },
{
    m.get(k).map(|e| Arc::clone(e.value()))
}

/// Relies on `DashMap::insert`: the name then maps to the client, other names are unchanged.
#[verifier::external_body]
fn clients_insert(m: &mut ClientMap, k: String, v: Arc<HttpClient>)
    ensures
        clients_of(*final(m)) == clients_of(*old(m)).insert(k@, v),
{
    m.insert(k, v);
}

/// Default TCP keepalive and idle timeout, in milliseconds.
pub const DEFAULT_KEEPALIVE_MS: u64 = 60000;

/// Default connect timeout, in milliseconds.
pub const DEFAULT_CONNECTION_TIMEOUT_MS: u64 = 10000;

/// Default number of idle connections kept per server name.
pub const DEFAULT_MAX_IDLE_CONNECTIONS: usize = 10;

/// Upstream HTTPS clients by server name.
pub struct ConnectionPool {
    clients: ClientMap,
    keepalive_timeout: Duration,
    connection_timeout: Duration,
    max_idle_connections: usize,
}

impl ConnectionPool {
    /// The clients held, by server name.
    pub closed spec fn clients(&self) -> Map<Seq<char>, Arc<HttpClient>> {
        clients_of(self.clients)
    }

    /// The keepalive setting new clients get.
    pub closed spec fn keepalive(&self) -> Duration {
        self.keepalive_timeout
    }

    /// The connect timeout new clients get.
    pub closed spec fn connect_timeout(&self) -> Duration {
        self.connection_timeout
    }

    /// The idle-connection limit new clients get.
    pub closed spec fn max_idle(&self) -> usize {
        self.max_idle_connections
    }

    /// An empty pool with the default settings: 60 s keepalive, 10 s connect
    /// timeout, 10 idle connections per server name.
    pub fn new() -> (r: Self)
        ensures
            r.clients().dom() == Set::<Seq<char>>::empty(),
            r.keepalive() == crate::clock::duration_of_millis(DEFAULT_KEEPALIVE_MS),
            r.connect_timeout() == crate::clock::duration_of_millis(DEFAULT_CONNECTION_TIMEOUT_MS),
            r.max_idle() == DEFAULT_MAX_IDLE_CONNECTIONS,
    {
        Self::with_config(
            millis(DEFAULT_KEEPALIVE_MS),
            millis(DEFAULT_CONNECTION_TIMEOUT_MS),
            DEFAULT_MAX_IDLE_CONNECTIONS,
        )
    }

    /// An empty pool whose clients get these settings.
    pub fn with_config(
        keepalive_timeout: Duration,
        connection_timeout: Duration,
        max_idle_connections: usize,
    ) -> (r: Self)
        ensures
            r.clients().dom() == Set::<Seq<char>>::empty(),
            r.keepalive() == keepalive_timeout,
            r.connect_timeout() == connection_timeout,
            r.max_idle() == max_idle_connections,
    {
        ConnectionPool {
            clients: clients_new(),
            keepalive_timeout,
            connection_timeout,
            max_idle_connections,
        }
    }

    /// The keepalive setting for new clients.
    pub fn keepalive_timeout(&self) -> (r: Duration)
        ensures
            r == self.keepalive(),
    {
        self.keepalive_timeout
    }

    /// The connect timeout for new clients.
    pub fn connection_timeout(&self) -> (r: Duration)
        ensures
            r == self.connect_timeout(),
    {
        self.connection_timeout
    }

    /// The idle-connection limit for new clients.
    pub fn max_idle_connections(&self) -> (r: usize)
        ensures
            r == self.max_idle(),
    {
        self.max_idle_connections
    }

    /// The client for `sni`, if one was made already.
    pub fn lookup(&self, sni: &str) -> (r: Option<Arc<HttpClient>>)
        ensures
            match r {
                Some(c) => self.clients().contains_key(sni@) && self.clients()[sni@] == c,
                None => !self.clients().contains_key(sni@),
            },
    {
        clients_get(&self.clients, sni)
    }

    /// The client for `sni`: the one held, or else the one `make` builds, which is
    /// then kept for every later call.
    pub fn get_client<F: FnOnce() -> Arc<HttpClient>>(&mut self, sni: &str, make: F) -> (r: Arc<
        HttpClient,
    >)
        requires
            make.requires(()),
        ensures
            old(self).clients().contains_key(sni@) ==> r == old(self).clients()[sni@]
                && final(self).clients() == old(self).clients(),
            !old(self).clients().contains_key(sni@) ==> make.ensures((), r)
                && final(self).clients() == old(self).clients().insert(sni@, r),
            final(self).clients().contains_key(sni@) && final(self).clients()[sni@] == r,
            final(self).keepalive() == old(self).keepalive(),
            final(self).connect_timeout() == old(self).connect_timeout(),
            final(self).max_idle() == old(self).max_idle(),
    {
        match clients_get(&self.clients, sni) {
            Some(c) => c,
            None => {
                let fresh = make();
                clients_insert(&mut self.clients, sni.to_owned(), fresh.clone());
                fresh
            },
        }
    }
}

impl Default for ConnectionPool {
    fn default() -> (r: Self)
        ensures
            r.clients().dom() == Set::<Seq<char>>::empty(),
            r.keepalive() == crate::clock::duration_of_millis(DEFAULT_KEEPALIVE_MS),
            r.connect_timeout() == crate::clock::duration_of_millis(DEFAULT_CONNECTION_TIMEOUT_MS),
            r.max_idle() == DEFAULT_MAX_IDLE_CONNECTIONS,
    {
        Self::new()
    }
}

/// Asking the pool twice for one server name gives the same client: the second
/// call finds the client the first one left.
pub proof fn lemma_client_reused(
    after_first: ConnectionPool,
    after_second: ConnectionPool,
    sni: Seq<char>,
    first: Arc<HttpClient>,
    second: Arc<HttpClient>,
)
    requires
        after_first.clients().contains_key(sni) && after_first.clients()[sni] == first,
        after_first.clients().contains_key(sni) ==> second == after_first.clients()[sni]
            && after_second.clients() == after_first.clients(),
    ensures
        first == second,
        after_second.clients()[sni] == first,
{
}

} // verus!
