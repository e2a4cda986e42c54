//! Documents: handles on native documents, and the translation of what the
//! native document calls report.

use vstd::prelude::*;
use crate::c_api::{CBLError, CBL_CONCURRENCY_FAIL_ON_CONFLICT, CBL_CONCURRENCY_LAST_WRITE_WINS};
use crate::error::{check_bool, error_of, CblResult, CouchbaseLiteError, Error};
use crate::handle::{NativeRef, RefLedger};

verus! {

/// An in-memory copy of a document, held through a native handle.
#[derive(Debug)]
pub struct Document {
    pub cbl_ref: NativeRef,
}

/// Conflict-handling options when saving or deleting a document.
#[derive(Clone, Copy, Debug, PartialEq, Eq, Structural)]
pub enum ConcurrencyControl {
    LastWriteWins,
    FailOnConflict,
}

impl ConcurrencyControl {
    /// The native value of each option.
    pub open spec fn spec_native(self) -> u8 {
        match self {
            ConcurrencyControl::LastWriteWins => CBL_CONCURRENCY_LAST_WRITE_WINS,
            ConcurrencyControl::FailOnConflict => CBL_CONCURRENCY_FAIL_ON_CONFLICT,
        }
    }

    /// The value passed to the native save and delete calls.
    pub fn to_native(&self) -> (r: u8)
        ensures
            r == self.spec_native(),
    {
        match self {
            ConcurrencyControl::LastWriteWins => CBL_CONCURRENCY_LAST_WRITE_WINS,
            ConcurrencyControl::FailOnConflict => CBL_CONCURRENCY_FAIL_ON_CONFLICT,
        }
    }
}

/// A point in time, in milliseconds since the Unix epoch.
#[derive(Clone, Copy, Debug, PartialEq, Eq, Structural)]
pub struct Timestamp(pub i64);

impl Document {
    /// A new, empty document, made by the native factory call and owned by
    /// the returned wrapper.
    pub fn new(ledger: &mut RefLedger) -> (r: Document)
        requires
            old(ledger)@.len() < usize::MAX,
        ensures
            r.cbl_ref == (NativeRef { id: old(ledger)@.len() as usize, owned: true }),
            final(ledger)@ == old(ledger)@.push(1),
    {
        let id = ledger.create();
        Document { cbl_ref: ledger.adopt(id) }
    }

    /// Wraps a native document whose reference the caller already owns.
    pub fn wrap(id: usize) -> (r: Document)
        ensures
            r.cbl_ref == (NativeRef { id, owned: true }),
    {
        Document { cbl_ref: NativeRef { id, owned: true } }
    }

    /// Wraps a native document with a reference of its own.
    pub fn retain(ledger: &mut RefLedger, id: usize) -> (r: Document)
        requires
            old(ledger).is_live(id),
            old(ledger)@[id as int] < u64::MAX,
        ensures
            r.cbl_ref == (NativeRef { id, owned: true }),
            final(ledger)@ == old(ledger)@.update(id as int, (old(ledger)@[id as int] + 1) as u64),
    {
        Document { cbl_ref: ledger.retain(id) }
    }

    /// Refers to a native document for the length of a callback.
    pub fn borrow(id: usize) -> (r: Document)
        ensures
            r.cbl_ref == (NativeRef { id, owned: false }),
    {
        Document { cbl_ref: NativeRef { id, owned: false } }
    }

    /// The id of the native document.
    pub fn get_ref(&self) -> (r: usize)
        ensures
            r == self.cbl_ref.id,
    {
        self.cbl_ref.id
    }

    /// A second wrapper on the same native document, with its own reference.
    pub fn clone_with(&self, ledger: &mut RefLedger) -> (r: Document)
        requires
            old(ledger).is_live(self.cbl_ref.id),
            old(ledger)@[self.cbl_ref.id as int] < u64::MAX,
        ensures
            r.cbl_ref == (NativeRef { id: self.cbl_ref.id, owned: true }),
            final(ledger)@ == old(ledger)@.update(
                self.cbl_ref.id as int,
                (old(ledger)@[self.cbl_ref.id as int] + 1) as u64,
            ),
    {
        Document::retain(ledger, self.cbl_ref.id)
    }

    /// Drops the wrapper, giving back the reference it owns, if any.
    pub fn release(self, ledger: &mut RefLedger)
        requires
            self.cbl_ref.owned ==> old(ledger).is_live(self.cbl_ref.id),
        ensures
            self.cbl_ref.owned ==> final(ledger)@ == old(ledger)@.update(
                self.cbl_ref.id as int,
                (old(ledger)@[self.cbl_ref.id as int] - 1) as u64,
            ),
            !self.cbl_ref.owned ==> final(ledger)@ == old(ledger)@,
    {
        ledger.release(self.cbl_ref)
    }
}

/// What a lookup of a document by id reports: the document, "not found" when
/// the native call found nothing and reported no error, or the native error.
pub open spec fn lookup_outcome(found: Option<usize>, err: CBLError) -> CblResult<Document> {
    match found {
        Some(id) => Ok(Document { cbl_ref: NativeRef { id, owned: true } }),
        None => if err.code != 0 {
            Err(error_of(err))
        } else {
            Err(Error { code: crate::error::ErrorCode::CouchbaseLite(CouchbaseLiteError::NotFound), internal_info: None })
        },
    }
}

/// The result of reading a document: `found` is the document the native call
/// returned (a new reference, adopted here), or `None` for a null result.
pub fn get_document_result(found: Option<usize>, err: &CBLError) -> (r: CblResult<Document>)
    ensures
        r == lookup_outcome(found, *err),
{
    match found {
        Some(id) => Ok(Document::wrap(id)),
        None => if err.code != 0 {
            Err(Error::new(err))
        } else {
            Err(Error::cbl_error(CouchbaseLiteError::NotFound))
        },
    }
}

/// What the native expiration value means: negative reports an error, zero
/// means "never expires".
pub open spec fn expiration_outcome(exp: i64, err: CBLError) -> CblResult<Option<Timestamp>> {
    if exp < 0 {
        Err(error_of(err))
    } else if exp == 0 {
        Ok(None)
    } else {
        Ok(Some(Timestamp(exp)))
    }
}

/// The expiration of a document, from the value the native call returned.
pub fn document_expiration_result(exp: i64, err: &CBLError) -> (r: CblResult<Option<Timestamp>>)
    ensures
        r == expiration_outcome(exp, *err),
{
    if exp < 0 {
        Err(Error::new(err))
    } else if exp == 0 {
        Ok(None)
    } else {
        Ok(Some(Timestamp(exp)))
    }
}

/// The value handed to the native call that sets or clears an expiration.
pub fn expiration_to_native(at: Option<Timestamp>) -> (r: i64)
    ensures
        r == match at {
            Some(t) => t.0,
            None => 0,
        },
{
    match at {
        Some(Timestamp(n)) => n,
        None => 0,
    }
}

/// Setting a positive expiration and reading it back gives the same time;
/// clearing it reads back as no expiration.
pub proof fn lemma_expiration_round_trip(at: Option<Timestamp>, err: CBLError)
    requires
        at matches Some(t) ==> t.0 > 0,
    ensures
        expiration_outcome(
            match at {
                Some(t) => t.0,
                None => 0,
            },
            err,
        ) == Ok::<Option<Timestamp>, Error>(at),
{
}

/// The result of a save that also hands back the saved document: on success a
/// second wrapper on it, with its own reference.
pub fn save_resolving_result(ok: bool, err: &CBLError, doc: &Document, ledger: &mut RefLedger) -> (r:
    CblResult<Document>)
    requires
        ok ==> old(ledger).is_live(doc.cbl_ref.id) && old(ledger)@[doc.cbl_ref.id as int]
            < u64::MAX,
    ensures
        ok ==> r == Ok::<Document, Error>(Document { cbl_ref: NativeRef { id: doc.cbl_ref.id, owned: true } }),
        ok ==> final(ledger)@ == old(ledger)@.update(
            doc.cbl_ref.id as int,
            (old(ledger)@[doc.cbl_ref.id as int] + 1) as u64,
        ),
        !ok ==> r == Err::<Document, Error>(error_of(*err)),
        !ok ==> final(ledger)@ == old(ledger)@,
{
    match check_bool(ok, err) {
        Ok(()) => Ok(doc.clone_with(ledger)),
        Err(e) => Err(e),
    }
}

} // verus!
