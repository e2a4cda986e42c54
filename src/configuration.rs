//! Replicator configuration, and its translation to the native configuration.

use vstd::prelude::*;
use crate::c_api::{CBLProxySettings, CBLReplicationCollection, CBLReplicatorConfiguration};
use crate::callbacks::ReplicationConfigurationContext;
use crate::collection::Collection;
use crate::database::Database;
use crate::endpoint::{Authenticator, Endpoint};
use crate::proxy::{text_of, ProxySettings};
use crate::replicator::ReplicatorType;

verus! {

/// A collection to replicate, with its own callbacks and filters.
pub struct ReplicationCollection<F, R> {
    pub collection: Collection,
    pub conflict_resolver: Option<R>,
    pub push_filter: Option<F>,
    pub pull_filter: Option<F>,
    pub channels: Vec<String>,
    pub document_ids: Vec<String>,
}

/// The native part of a collection to replicate: its collection, and a
/// trampoline for each callback that is present.
pub open spec fn native_collection<F, R>(c: ReplicationCollection<F, R>) -> CBLReplicationCollection {
    CBLReplicationCollection {
        collection: c.collection.cbl_ref.id,
        conflict_resolver: c.conflict_resolver is Some,
        push_filter: c.push_filter is Some,
        pull_filter: c.pull_filter is Some,
    }
}

impl<F, R> ReplicationCollection<F, R> {
    /// The native part of this collection's configuration.
    pub fn to_cbl_replication_collection(&self) -> (r: CBLReplicationCollection)
        ensures
            r == native_collection(*self),
    {
        CBLReplicationCollection {
            collection: self.collection.get_ref(),
            conflict_resolver: self.conflict_resolver.is_some(),
            push_filter: self.push_filter.is_some(),
            pull_filter: self.pull_filter.is_some(),
        }
    }
}

/// The configuration of a replicator.
pub struct ReplicatorConfiguration<F, R> {
    /// The database to replicate; only its default collection is replicated.
    /// Needed when `collections` is not set.
    pub database: Option<Database>,
    /// The database to replicate with.
    pub endpoint: Endpoint,
    pub replicator_type: ReplicatorType,
    pub continuous: bool,
    /// When set, documents the user loses access to are not purged; an
    /// access-removed event goes to the document listeners instead.
    pub disable_auto_purge: bool,
    /// Maximum connection attempts, the first included; 0 for the default.
    pub max_attempts: u32,
    /// Maximum wait between attempts, in seconds; 0 for the default.
    pub max_attempt_wait_time: u32,
    /// Heartbeat interval, in seconds; 0 for the default.
    pub heartbeat: u32,
    pub authenticator: Option<Authenticator>,
    pub proxy: Option<ProxySettings>,
    /// Extra HTTP headers for the WebSocket request, each name once.
    pub headers: Vec<(String, String)>,
    /// An X.509 certificate to pin TLS connections to.
    pub pinned_server_certificate: Option<Vec<u8>>,
    /// Anchor certificates, in PEM form.
    pub trusted_root_certificates: Option<Vec<u8>>,
    pub channels: Vec<String>,
    pub document_ids: Vec<String>,
    /// The collections to replicate. Needed when `database` is not set.
    pub collections: Option<Vec<ReplicationCollection<F, R>>>,
    /// Whether cookies of the remote host's parent domain may be saved.
    pub accept_parent_domain_cookies: bool,
}

/// The native proxy settings match the configured ones.
pub open spec fn proxy_matches(native: Option<CBLProxySettings>, proxy: Option<ProxySettings>) -> bool {
    match (native, proxy) {
        (None, None) => true,
        (Some(n), Some(p)) => {
            &&& n.proxy_type == p.proxy_type.spec_native()
            &&& n.port == p.port
            &&& text_of(n.hostname) == text_of(p.hostname)
            &&& text_of(n.username) == text_of(p.username)
            &&& text_of(n.password) == text_of(p.password)
        },
        _ => false,
    }
}

/// The native collections are those configured, one for one and in order.
pub open spec fn collections_match<F, R>(
    native: Seq<CBLReplicationCollection>,
    configured: Seq<ReplicationCollection<F, R>>,
) -> bool {
    &&& native.len() == configured.len()
    &&& forall|i: int| 0 <= i < native.len() ==> #[trigger] native[i] == native_collection(configured[i])
}

/// The native parts of the configured collections, in order.
fn native_collections<F, R>(collections: &Vec<ReplicationCollection<F, R>>) -> (r: Vec<CBLReplicationCollection>)
    ensures
        collections_match(r@, collections@),
{
    let mut out: Vec<CBLReplicationCollection> = Vec::new();
    let mut i: usize = 0;
    while i < collections.len()
        invariant
            i <= collections@.len(),
            out@.len() == i,
            forall|j: int| 0 <= j < i ==> #[trigger] out@[j] == native_collection(collections@[j]),
        decreases collections@.len() - i,
    {
        out.push(collections[i].to_cbl_replication_collection());
        i = i + 1;
    }
    out
}

impl<F, R> ReplicatorConfiguration<F, R> {
    /// The native configuration of a replicator: every setting carried over,
    /// and a trampoline installed for each callback of `context` (and of
    /// each collection) that is present, and for no other.
    pub fn to_native<E, D>(&self, context: &ReplicationConfigurationContext<F, R, E, D>) -> (r:
        CBLReplicatorConfiguration)
        ensures
            r.database == match self.database {
                Some(d) => Some(d.cbl_ref.id),
                None => None::<usize>,
            },
            r.endpoint == self.endpoint.cbl_ref.id,
            r.replicator_type == self.replicator_type.spec_native(),
            r.continuous == self.continuous,
            r.disable_auto_purge == self.disable_auto_purge,
            r.max_attempts == self.max_attempts,
            r.max_attempt_wait_time == self.max_attempt_wait_time,
            r.heartbeat == self.heartbeat,
            r.authenticator == match self.authenticator {
                Some(a) => Some(a.cbl_ref.id),
                None => None::<usize>,
            },
            proxy_matches(r.proxy, self.proxy),
            r.push_filter == context.push_filter is Some,
            r.pull_filter == context.pull_filter is Some,
            r.conflict_resolver == context.conflict_resolver is Some,
            r.property_encryptor == context.property_encryptor is Some,
            r.property_decryptor == context.property_decryptor is Some,
            r.collections is Some == self.collections is Some,
            self.collections matches Some(cs) ==> (r.collections matches Some(ns) && collections_match(
                ns@,
                cs@,
            ) && r.collection_count == cs@.len()),
            self.collections is None ==> r.collection_count == 0,
            r.accept_parent_domain_cookies == self.accept_parent_domain_cookies,
    {
        let database = match &self.database {
            Some(d) => Some(d.get_ref()),
            None => None,
        };
        let authenticator = match &self.authenticator {
            Some(a) => Some(a.get_ref()),
            None => None,
        };
        let proxy = match &self.proxy {
            Some(p) => Some(p.to_native()),
            None => None,
        };
        let (collections, collection_count) = match &self.collections {
            Some(cs) => {
                let ns = native_collections(cs);
                let n = ns.len();
                (Some(ns), n)
            },
            None => (None, 0),
        };
        CBLReplicatorConfiguration {
            database,
            endpoint: self.endpoint.get_ref(),
            replicator_type: self.replicator_type.to_native(),
            continuous: self.continuous,
            disable_auto_purge: self.disable_auto_purge,
            max_attempts: self.max_attempts,
            max_attempt_wait_time: self.max_attempt_wait_time,
            heartbeat: self.heartbeat,
            authenticator,
            proxy,
            push_filter: context.push_filter.is_some(),
            pull_filter: context.pull_filter.is_some(),
            conflict_resolver: context.conflict_resolver.is_some(),
            property_encryptor: context.property_encryptor.is_some(),
            property_decryptor: context.property_decryptor.is_some(),
            collections,
            collection_count,
            accept_parent_domain_cookies: self.accept_parent_domain_cookies,
        }
    }
}

} // verus!
