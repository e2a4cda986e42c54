use couchbase_lite::c_api::CBLError;
use couchbase_lite::document::{
    document_expiration_result, expiration_to_native, get_document_result, save_resolving_result,
};
use couchbase_lite::{ConcurrencyControl, CouchbaseLiteError, Document, Error, ErrorCode, NativeRef, RefLedger, Timestamp};

#[test]
fn found_document_is_adopted() {
    let r = get_document_result(Some(4), &CBLError::none());
    assert_eq!(r.unwrap().cbl_ref, NativeRef { id: 4, owned: true });
}

#[test]
fn missing_document_is_not_found() {
    let r = get_document_result(None, &CBLError::none());
    let e = r.unwrap_err();
    assert_eq!(e, Error::cbl_error(CouchbaseLiteError::NotFound));
    assert_eq!(e.internal_info, None);
}

#[test]
fn failed_document_read_reports_native_error() {
    let err = CBLError { domain: 1, code: 29, internal_info: 0 };
    let e = get_document_result(None, &err).unwrap_err();
    assert_eq!(e.code, ErrorCode::CouchbaseLite(CouchbaseLiteError::BadDocID));
}

#[test]
fn expiration_values() {
    let err = CBLError { domain: 1, code: 6, internal_info: 0 };
    assert_eq!(document_expiration_result(0, &err), Ok(None));
    assert_eq!(
        document_expiration_result(1000000000, &err),
        Ok(Some(Timestamp(1000000000)))
    );
    assert_eq!(document_expiration_result(-1, &err), Err(Error::new(&err)));
    assert_eq!(expiration_to_native(None), 0);
    assert_eq!(expiration_to_native(Some(Timestamp(1000000000))), 1000000000);
}

#[test]
fn expiration_round_trip() {
    let none = CBLError::none();
    for t in [1i64, 1000000000, i64::MAX] {
        let native = expiration_to_native(Some(Timestamp(t)));
        assert_eq!(document_expiration_result(native, &none), Ok(Some(Timestamp(t))));
    }
    assert_eq!(document_expiration_result(expiration_to_native(None), &none), Ok(None));
}

#[test]
fn concurrency_control_values() {
    assert_eq!(ConcurrencyControl::LastWriteWins.to_native(), 0);
    assert_eq!(ConcurrencyControl::FailOnConflict.to_native(), 1);
}

#[test]
fn save_resolving_hands_back_a_retained_copy() {
    let mut ledger = RefLedger::new();
    let doc = Document::new(&mut ledger);
    let saved = save_resolving_result(true, &CBLError::none(), &doc, &mut ledger).unwrap();
    assert_eq!(saved.cbl_ref, doc.cbl_ref);
    assert_eq!(ledger.count(doc.get_ref()), 2);
    let err = CBLError { domain: 1, code: 8, internal_info: 0 };
    let failed = save_resolving_result(false, &err, &doc, &mut ledger);
    assert_eq!(failed.unwrap_err().code, ErrorCode::CouchbaseLite(CouchbaseLiteError::Conflict));
    assert_eq!(ledger.count(doc.get_ref()), 2);
    saved.release(&mut ledger);
    doc.release(&mut ledger);
    assert_eq!(ledger.instance_count(), 0);
}
