use couchbase_lite::{Document, Encryptable, NativeRef, Ownership, RefLedger};

#[test]
fn ledger_counts_references() {
    let mut ledger = RefLedger::new();
    assert_eq!(ledger.instance_count(), 0);
    let a = ledger.create();
    let b = ledger.create();
    assert_eq!((a, b), (0, 1));
    assert_eq!(ledger.instance_count(), 2);
    let held = ledger.retain(a);
    assert_eq!(held, NativeRef { id: a, owned: true });
    assert_eq!(ledger.count(a), 2);
    ledger.release(held);
    assert_eq!(ledger.count(a), 1);
    ledger.release(NativeRef { id: b, owned: true });
    assert_eq!(ledger.count(b), 0);
    assert_eq!(ledger.instance_count(), 1);
}

#[test]
fn ownership_modes() {
    let mut ledger = RefLedger::new();
    let id = ledger.create();
    let retained = ledger.hold(id, Ownership::Retained);
    assert_eq!(ledger.count(id), 2);
    let adopted = ledger.hold(id, Ownership::Adopted);
    assert_eq!(ledger.count(id), 2);
    let borrowed = ledger.hold(id, Ownership::Borrowed);
    assert_eq!(ledger.count(id), 2);
    assert!(retained.owned && adopted.owned && !borrowed.owned);
    ledger.release(borrowed);
    assert_eq!(ledger.count(id), 2);
    ledger.release(retained);
    ledger.release(adopted);
    assert_eq!(ledger.count(id), 0);
    assert_eq!(ledger.instance_count(), 0);
}

#[test]
fn retain_drop_pairs_leave_no_leak() {
    let mut ledger = RefLedger::new();
    let keep = Document::new(&mut ledger);
    let start = ledger.instance_count();
    let start_count = ledger.count(keep.get_ref());
    for _ in 0..5 {
        let copy = keep.clone_with(&mut ledger);
        assert_eq!(ledger.count(keep.get_ref()), start_count + 1);
        copy.release(&mut ledger);
    }
    let doc = Document::new(&mut ledger);
    assert_eq!(ledger.instance_count(), start + 1);
    doc.release(&mut ledger);
    assert_eq!(ledger.instance_count(), start);
    assert_eq!(ledger.count(keep.get_ref()), start_count);
}

#[test]
fn documents_wrap_retain_and_borrow() {
    let mut ledger = RefLedger::new();
    let doc = Document::new(&mut ledger);
    assert_eq!(doc.cbl_ref, NativeRef { id: 0, owned: true });
    assert_eq!(ledger.count(0), 1);
    let retained = Document::retain(&mut ledger, 0);
    assert_eq!(ledger.count(0), 2);
    let borrowed = Document::borrow(0);
    assert!(!borrowed.cbl_ref.owned);
    borrowed.release(&mut ledger);
    assert_eq!(ledger.count(0), 2);
    retained.release(&mut ledger);
    doc.release(&mut ledger);
    assert_eq!(ledger.count(0), 0);
    assert_eq!(Document::wrap(7).cbl_ref, NativeRef { id: 7, owned: true });
}

#[test]
fn encryptables_hold_references() {
    let mut ledger = RefLedger::new();
    let id = ledger.create();
    let adopted = Encryptable::adopt(id);
    let extra = Encryptable::new(&mut ledger, id);
    let copy = extra.clone_with(&mut ledger);
    assert_eq!(ledger.count(id), 3);
    assert_eq!(copy.get_ref(), id);
    copy.release(&mut ledger);
    extra.release(&mut ledger);
    adopted.release(&mut ledger);
    assert_eq!(ledger.instance_count(), 0);
}
