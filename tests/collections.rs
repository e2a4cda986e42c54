use couchbase_lite::c_api::CBLError;
use couchbase_lite::collection::{changed_document_ids, names_from_values, names_result, DEFAULT_NAME};
use couchbase_lite::{Collection, CouchbaseLiteError, Error, ErrorCode, NativeRef, RefLedger, Scope};

fn names(v: &[Option<&str>]) -> Vec<Option<String>> {
    v.iter().map(|s| s.map(|t| t.to_string())).collect()
}

#[test]
fn lookups_retain_what_they_find() {
    let mut ledger = RefLedger::new();
    let id = ledger.create();
    let c = Collection::lookup_result(Some(id), &CBLError::none(), &mut ledger).unwrap().unwrap();
    assert_eq!(c.cbl_ref, NativeRef { id, owned: true });
    assert_eq!(ledger.count(id), 2);
    let s = Scope::lookup_result(None, &CBLError::none(), &mut ledger).unwrap();
    assert!(s.is_none());
    let err = CBLError { domain: 1, code: 9, internal_info: 0 };
    let e = Collection::lookup_result(Some(id), &err, &mut ledger).unwrap_err();
    assert_eq!(e.code, ErrorCode::CouchbaseLite(CouchbaseLiteError::InvalidParameter));
    assert_eq!(ledger.count(id), 2);
    let scope = Scope::lookup_result(Some(id), &CBLError::none(), &mut ledger).unwrap().unwrap();
    assert_eq!(scope.get_ref(), id);
    assert_eq!(ledger.count(id), 3);
}

#[test]
fn required_results() {
    let mut ledger = RefLedger::new();
    let id = ledger.create();
    let c = Collection::required_result(id, &CBLError::none(), &mut ledger).unwrap();
    assert_eq!(c.get_ref(), id);
    let s = Scope::required_result(id, &CBLError::none(), &mut ledger).unwrap();
    assert_eq!(s.get_ref(), id);
    assert_eq!(ledger.count(id), 3);
    let err = CBLError { domain: 1, code: 9, internal_info: 0 };
    assert_eq!(Scope::required_result(id, &err, &mut ledger).unwrap_err(), Error::new(&err));
    assert_eq!(ledger.count(id), 3);
}

#[test]
fn listed_names_keep_order_and_blank_non_strings() {
    let got = names_from_values(&names(&[Some("_default"), None, Some("books")]));
    assert_eq!(got, vec!["_default".to_string(), String::new(), "books".to_string()]);
    assert_eq!(names_from_values(&vec![]), Vec::<String>::new());
    let err = CBLError { domain: 1, code: 6, internal_info: 0 };
    assert_eq!(names_result(&names(&[Some("a")]), &err), Err(Error::new(&err)));
    assert_eq!(names_result(&names(&[Some("a")]), &CBLError::none()), Ok(vec!["a".to_string()]));
    assert_eq!(DEFAULT_NAME, "_default");
}

#[test]
fn changed_ids_skip_non_strings() {
    let got = changed_document_ids(&names(&[None, Some("foo"), None, Some("foo2")]));
    assert_eq!(got, vec!["foo".to_string(), "foo2".to_string()]);
    assert!(changed_document_ids(&names(&[None])).is_empty());
}
