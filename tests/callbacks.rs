use std::cell::Cell;

use couchbase_lite::c_api::CBLError;
use couchbase_lite::callbacks::{crypto_reply_outcome, run_conflict_resolver, run_property_crypto, run_replication_filter};
use couchbase_lite::listener::CallbackRegistry;
use couchbase_lite::{CouchbaseLiteError, Document, EncryptionError, Error, ErrorCode};

#[test]
fn filters_see_flags_and_default_to_refusal() {
    let seen = Cell::new((0usize, false, false));
    let filter = Some(|d: &Document, deleted: bool, removed: bool| {
        seen.set((d.get_ref(), deleted, removed));
        !deleted
    });
    assert!(run_replication_filter(&filter, 4, 0));
    assert_eq!(seen.get(), (4, false, false));
    assert!(!run_replication_filter(&filter, 5, 3));
    assert_eq!(seen.get(), (5, true, true));
    let none: Option<fn(&Document, bool, bool) -> bool> = None;
    assert!(!run_replication_filter(&none, 4, 0));
}

#[test]
fn resolver_runs_once_and_its_choice_is_kept() {
    let calls = Cell::new(0u32);
    let resolver = Some(|id: String, local: Option<Document>, remote: Option<Document>| {
        calls.set(calls.get() + 1);
        assert_eq!(id, "foo");
        assert!(!local.as_ref().unwrap().cbl_ref.owned);
        if remote.is_some() { remote } else { local }
    });
    assert_eq!(run_conflict_resolver(&resolver, "foo".to_string(), Some(1), Some(2)), Some(2));
    assert_eq!(calls.get(), 1);
    assert_eq!(run_conflict_resolver(&resolver, "foo".to_string(), Some(1), None), Some(1));
    assert_eq!(calls.get(), 2);
    let deleting = Some(|_id: String, _l: Option<Document>, _r: Option<Document>| None);
    assert_eq!(run_conflict_resolver(&deleting, "foo".to_string(), Some(1), Some(2)), None);
    let absent: Option<fn(String, Option<Document>, Option<Document>) -> Option<Document>> = None;
    assert_eq!(run_conflict_resolver(&absent, "foo".to_string(), Some(1), Some(2)), None);
}

#[test]
fn encryption_errors_map_to_native_errors() {
    assert_eq!(
        EncryptionError::Temporary.to_error(),
        Error { code: ErrorCode::WebSocket(503), internal_info: None }
    );
    assert_eq!(EncryptionError::Permanent.to_error(), Error::cbl_error(CouchbaseLiteError::Crypto));
}

#[test]
fn crypto_outcomes() {
    let none = CBLError::none();
    let ok = crypto_reply_outcome(Ok(vec![1, 2, 3]), &none);
    assert_eq!(ok.output, Some(vec![1, 2, 3]));
    assert_eq!(ok.error, None);
    let temp = crypto_reply_outcome(Err(EncryptionError::Temporary), &none);
    assert_eq!(temp.output, None);
    assert_eq!(temp.error, Some(Error { code: ErrorCode::WebSocket(503), internal_info: None }));
    let perm = crypto_reply_outcome(Err(EncryptionError::Permanent), &none);
    assert_eq!(perm.output, None);
    assert_eq!(perm.error, Some(Error::cbl_error(CouchbaseLiteError::Crypto)));
    let prior = CBLError { domain: 1, code: 10, internal_info: 2 };
    let kept = crypto_reply_outcome(Ok(vec![9]), &prior);
    assert_eq!(kept.error, Some(Error::new(&prior)));
}

#[test]
fn property_crypto_runs() {
    let none = CBLError::none();
    let calls = Cell::new(0u32);
    let reverse = Some(|input: Vec<u8>| -> Result<Vec<u8>, EncryptionError> {
        calls.set(calls.get() + 1);
        Ok(input.into_iter().rev().collect())
    });
    let out = run_property_crypto(&reverse, Some(vec![1u8, 2, 3]), &none);
    assert_eq!(out.output, Some(vec![3, 2, 1]));
    assert_eq!(out.error, None);
    assert_eq!(calls.get(), 1);
    let missing = run_property_crypto(&reverse, None, &none);
    assert_eq!(missing.output, Some(vec![]));
    assert_eq!(missing.error, Some(Error::cbl_error(CouchbaseLiteError::Crypto)));
    assert_eq!(calls.get(), 1);
    let absent: Option<fn(Vec<u8>) -> Result<Vec<u8>, EncryptionError>> = None;
    let skipped = run_property_crypto(&absent, Some(vec![1u8]), &none);
    assert_eq!(skipped.output, Some(vec![]));
    assert_eq!(skipped.error, None);
    let failing = Some(|_input: Vec<u8>| -> Result<Vec<u8>, EncryptionError> { Err(EncryptionError::Temporary) });
    let failed = run_property_crypto(&failing, Some(vec![1u8]), &none);
    assert_eq!(failed.output, None);
    assert_eq!(failed.error, Some(Error { code: ErrorCode::WebSocket(503), internal_info: None }));
}

#[test]
fn registry_tokens() {
    let mut registry: CallbackRegistry<&str> = CallbackRegistry::new();
    let a = registry.register("first");
    let b = registry.register("second");
    assert_ne!(a, b);
    assert_eq!(registry.get(a), Some(&"first"));
    assert!(registry.is_registered(b));
    assert_eq!(registry.unregister(a), Some("first"));
    assert_eq!(registry.get(a), None);
    assert!(!registry.is_registered(a));
    assert_eq!(registry.unregister(a), None);
    assert_eq!(registry.get(b), Some(&"second"));
    assert_eq!(registry.get(99), None);
    let c = registry.register("third");
    assert!(c != a && c != b);
}
