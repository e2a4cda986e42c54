use couchbase_lite::c_api::{CBLError, CBLReplicationCollection};
use couchbase_lite::replicator::{
    ends_stop_wait, pending_document_ids_result, read_document_flags, replicated_documents,
    status_error, stop_needed, stop_succeeded, stop_timeout, NativeReplicatedDocument,
};
use couchbase_lite::{
    Authenticator, Collection, CouchbaseLiteError, Database, Direction, Endpoint, Error, ErrorCode,
    NativeRef, ProxySettings, ProxyType, RefLedger, ReplicationCollection,
    ReplicationConfigurationContext, ReplicatorActivityLevel, ReplicatorConfiguration, ReplicatorType,
};

type Filter = Box<dyn Fn(&couchbase_lite::Document, bool, bool) -> bool>;
type Resolver = Box<dyn Fn(String, Option<couchbase_lite::Document>, Option<couchbase_lite::Document>) -> Option<couchbase_lite::Document>>;

#[test]
fn replicator_type_values() {
    assert_eq!(ReplicatorType::PushAndPull.to_native(), 0);
    assert_eq!(ReplicatorType::Push.to_native(), 1);
    assert_eq!(ReplicatorType::Pull.to_native(), 2);
    for v in 0..=2u8 {
        assert_eq!(ReplicatorType::from_native(v).to_native(), v);
    }
}

#[test]
fn activity_level_values() {
    let levels = [
        ReplicatorActivityLevel::Stopped,
        ReplicatorActivityLevel::Offline,
        ReplicatorActivityLevel::Connecting,
        ReplicatorActivityLevel::Idle,
        ReplicatorActivityLevel::Busy,
    ];
    for (v, level) in levels.iter().enumerate() {
        assert_eq!(level.to_native(), v as u8);
        assert_eq!(ReplicatorActivityLevel::from_native(v as u8), *level);
    }
}

#[test]
fn proxy_type_values() {
    assert_eq!(ProxyType::HTTP.to_native(), 0);
    assert_eq!(ProxyType::HTTPS.to_native(), 1);
    assert_eq!(ProxyType::from_native(1), ProxyType::HTTPS);
}

#[test]
fn directions_and_flags() {
    assert_eq!(Direction::from_is_push(true), Direction::Pushed);
    assert_eq!(Direction::from_is_push(false), Direction::Pulled);
    assert_eq!(read_document_flags(0), (false, false));
    assert_eq!(read_document_flags(1), (true, false));
    assert_eq!(read_document_flags(2), (false, true));
    assert_eq!(read_document_flags(3), (true, true));
    assert_eq!(read_document_flags(4), (false, false));
}

#[test]
fn replicated_documents_keep_entries_with_ids() {
    let failed = CBLError { domain: 6, code: 403, internal_info: 0 };
    let entries = vec![
        NativeReplicatedDocument { id: Some("foo".to_string()), flags: 0, error: CBLError::none() },
        NativeReplicatedDocument { id: None, flags: 1, error: CBLError::none() },
        NativeReplicatedDocument { id: Some("foo2".to_string()), flags: 1, error: failed },
    ];
    let docs = replicated_documents(&entries);
    assert_eq!(docs.len(), 2);
    assert_eq!(docs[0].id, "foo");
    assert_eq!(docs[0].flags, 0);
    assert_eq!(docs[0].error, Ok(()));
    assert_eq!(docs[1].id, "foo2");
    assert_eq!(docs[1].flags, 1);
    assert_eq!(docs[1].error, Err(Error { code: ErrorCode::WebSocket(403), internal_info: Some(0) }));
    assert!(replicated_documents(&vec![]).is_empty());
}

#[test]
fn blocking_stop_decisions() {
    assert_eq!(stop_timeout(None), 10);
    assert_eq!(stop_timeout(Some(3)), 3);
    assert!(!stop_needed(ReplicatorActivityLevel::Stopped));
    assert!(stop_needed(ReplicatorActivityLevel::Busy));
    assert!(stop_succeeded(ReplicatorActivityLevel::Stopped, false));
    assert!(stop_succeeded(ReplicatorActivityLevel::Idle, true));
    assert!(!stop_succeeded(ReplicatorActivityLevel::Offline, false));
    assert!(ends_stop_wait(ReplicatorActivityLevel::Stopped));
    assert!(!ends_stop_wait(ReplicatorActivityLevel::Connecting));
}

#[test]
fn status_and_pending_ids() {
    let err = CBLError { domain: 5, code: 2, internal_info: 0 };
    assert_eq!(status_error(&CBLError::none()), Ok(()));
    assert_eq!(status_error(&err), Err(Error::new(&err)));
    let keys = vec!["foo".to_string(), "foo3".to_string()];
    assert_eq!(pending_document_ids_result(Some(keys.clone()), &CBLError::none()), Ok(keys.clone()));
    assert_eq!(
        pending_document_ids_result(None, &CBLError::none()),
        Err(Error::cbl_error(CouchbaseLiteError::NotFound))
    );
    assert_eq!(pending_document_ids_result(Some(keys), &err), Err(Error::new(&err)));
}

#[test]
fn proxy_settings_to_native() {
    let p = ProxySettings::new(ProxyType::HTTPS, Some("proxy".to_string()), 8080, None, Some("pw".to_string()));
    assert_eq!(p.port, 8080);
    let n = p.to_native();
    assert_eq!(n.proxy_type, 1);
    assert_eq!(n.port, 8080);
    assert_eq!(n.hostname, Some("proxy".to_string()));
    assert_eq!(n.username, None);
    assert_eq!(n.password, Some("pw".to_string()));
}

#[test]
fn endpoints_and_authenticators() {
    let ep = Endpoint::url_result(5, "ws://localhost:4984/db".to_string(), &CBLError::none()).unwrap();
    assert_eq!(ep.cbl_ref, NativeRef { id: 5, owned: true });
    assert_eq!(ep.url, Some("ws://localhost:4984/db".to_string()));
    let err = CBLError { domain: 5, code: 4, internal_info: 0 };
    let bad = Endpoint::url_result(5, "nope".to_string(), &err);
    assert_eq!(bad.unwrap_err().code, ErrorCode::Network(4));
    let local = Endpoint::local(6);
    assert_eq!(local.get_ref(), 6);
    assert!(local.url.is_none());
    assert_eq!(Authenticator::wrap(8).get_ref(), 8);
}

fn config(collections: Option<Vec<ReplicationCollection<Filter, Resolver>>>) -> ReplicatorConfiguration<Filter, Resolver> {
    ReplicatorConfiguration {
        database: Some(Database::wrap(1)),
        endpoint: Endpoint::local(2),
        replicator_type: ReplicatorType::Pull,
        continuous: true,
        disable_auto_purge: true,
        max_attempts: 4,
        max_attempt_wait_time: 100,
        heartbeat: 120,
        authenticator: None,
        proxy: Some(ProxySettings::new(ProxyType::HTTP, Some("h".to_string()), 3128, None, None)),
        headers: vec![("Cookie".to_string(), "SyncGatewaySession=1234".to_string())],
        pinned_server_certificate: None,
        trusted_root_certificates: None,
        channels: vec![],
        document_ids: vec![],
        collections,
        accept_parent_domain_cookies: false,
    }
}

#[test]
fn replicator_configuration_to_native() {
    let mut ctx: ReplicationConfigurationContext<Filter, Resolver, u8, u8> = ReplicationConfigurationContext::empty();
    ctx.pull_filter = Some(Box::new(|_d, deleted, _removed| !deleted));
    ctx.property_encryptor = Some(1);
    let n = config(None).to_native(&ctx);
    assert_eq!(n.database, Some(1));
    assert_eq!(n.endpoint, 2);
    assert_eq!(n.replicator_type, 2);
    assert!(n.continuous && n.disable_auto_purge);
    assert_eq!((n.max_attempts, n.max_attempt_wait_time, n.heartbeat), (4, 100, 120));
    assert_eq!(n.authenticator, None);
    assert_eq!(n.proxy.as_ref().unwrap().port, 3128);
    assert!(!n.push_filter && n.pull_filter && !n.conflict_resolver);
    assert!(n.property_encryptor && !n.property_decryptor);
    assert!(n.collections.is_none());
    assert_eq!(n.collection_count, 0);
    assert!(!n.accept_parent_domain_cookies);
}

#[test]
fn replication_collections_to_native() {
    let mut ledger = RefLedger::new();
    let id = ledger.create();
    let with_filter: ReplicationCollection<Filter, Resolver> = ReplicationCollection {
        collection: Collection::retain(&mut ledger, id),
        conflict_resolver: None,
        push_filter: Some(Box::new(|_d, _x, _y| true)),
        pull_filter: None,
        channels: vec![],
        document_ids: vec!["foo".to_string()],
    };
    assert_eq!(
        with_filter.to_cbl_replication_collection(),
        CBLReplicationCollection { collection: id, conflict_resolver: false, push_filter: true, pull_filter: false }
    );
    let ctx: ReplicationConfigurationContext<Filter, Resolver, u8, u8> = ReplicationConfigurationContext::empty();
    let n = config(Some(vec![with_filter])).to_native(&ctx);
    assert_eq!(n.collection_count, 1);
    assert_eq!(n.collections.unwrap()[0].push_filter, true);
}
