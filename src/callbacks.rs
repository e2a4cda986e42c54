//! Replication callbacks: what the trampolines that the native replicator
//! calls do with the user's filters, conflict resolver and property
//! encryptor and decryptor.
//!
//! Each trampoline borrows the native objects it is handed for the length of
//! the call, calls the user's callback once, and turns what it returned into
//! what the native side expects.

use vstd::prelude::*;
use crate::c_api::CBLError;
use crate::document::Document;
use crate::error::{error_of, CouchbaseLiteError, Error, ErrorCode};
use crate::handle::NativeRef;
use crate::replicator::{document_flags, read_document_flags};

verus! {

/// The HTTP-like status reported for a transient encryption failure.
pub const SERVICE_UNAVAILABLE: i32 = 503;

/// The callbacks of a replication, each optional. The native replicator
/// calls a trampoline only for those that are present.
pub struct ReplicationConfigurationContext<F, R, E, D> {
    pub push_filter: Option<F>,
    pub pull_filter: Option<F>,
    pub conflict_resolver: Option<R>,
    pub property_encryptor: Option<E>,
    pub property_decryptor: Option<D>,
}

impl<F, R, E, D> ReplicationConfigurationContext<F, R, E, D> {
    /// A context with no callbacks.
    pub fn empty() -> (r: Self)
        ensures
            r.push_filter is None,
            r.pull_filter is None,
            r.conflict_resolver is None,
            r.property_encryptor is None,
            r.property_decryptor is None,
    {
        ReplicationConfigurationContext {
            push_filter: None,
            pull_filter: None,
            conflict_resolver: None,
            property_encryptor: None,
            property_decryptor: None,
        }
    }
}

/// How a property encryptor or decryptor failed.
#[derive(Clone, Copy, Debug, PartialEq, Eq, Structural)]
pub enum EncryptionError {
    /// The replicator stops, then restarts and tries the document again.
    Temporary,
    /// The replicator skips the document until a new revision is made.
    Permanent,
}

/// The error reported to the native side for each kind of failure.
pub open spec fn encryption_failure(e: EncryptionError) -> Error {
    match e {
        EncryptionError::Temporary => Error {
            code: ErrorCode::WebSocket(SERVICE_UNAVAILABLE),
            internal_info: None,
        },
        EncryptionError::Permanent => Error {
            code: ErrorCode::CouchbaseLite(CouchbaseLiteError::Crypto),
            internal_info: None,
        },
    }
}

impl EncryptionError {
    /// The error reported to the native side: a transient network condition
    /// for a temporary failure, a crypto error for a permanent one.
    pub fn to_error(&self) -> (r: Error)
        ensures
            r == encryption_failure(*self),
    {
        match self {
            EncryptionError::Temporary => Error {
                code: ErrorCode::WebSocket(SERVICE_UNAVAILABLE),
                internal_info: None,
            },
            EncryptionError::Permanent => Error::cbl_error(CouchbaseLiteError::Crypto),
        }
    }
}

/// Runs a push or pull filter on a document the replicator offers: a
/// document without a filter is refused; otherwise the filter's verdict,
/// given the deleted and access-removed marks of `flags`, is returned.
pub fn run_replication_filter<P: Fn(&Document, bool, bool) -> bool>(
    filter: &Option<P>,
    document: usize,
    flags: u32,
) -> (r: bool)
    requires
        filter matches Some(f) ==> f.requires(
            (
                &Document { cbl_ref: NativeRef { id: document, owned: false } },
                document_flags(flags).0,
                document_flags(flags).1,
            ),
        ),
    ensures
        filter is None ==> !r,
        filter matches Some(f) ==> f.ensures(
            (
                &Document { cbl_ref: NativeRef { id: document, owned: false } },
                document_flags(flags).0,
                document_flags(flags).1,
            ),
            r,
        ),
{
    let doc = Document::borrow(document);
    let (is_deleted, is_access_removed) = read_document_flags(flags);
    match filter {
        Some(f) => f(&doc, is_deleted, is_access_removed),
        None => false,
    }
}

/// A native document argument, borrowed for the length of a callback.
pub open spec fn borrowed(doc: Option<usize>) -> Option<Document> {
    match doc {
        Some(id) => Some(Document { cbl_ref: NativeRef { id, owned: false } }),
        None => None,
    }
}

/// The native document handed back for a resolver's choice: the chosen
/// document, or none (the document is then deleted).
pub open spec fn resolution(choice: Option<Document>) -> Option<usize> {
    match choice {
        Some(d) => Some(d.cbl_ref.id),
        None => None,
    }
}

/// Borrows an optional native document argument.
fn borrow_optional(doc: Option<usize>) -> (r: Option<Document>)
    ensures
        r == borrowed(doc),
{
    match doc {
        Some(id) => Some(Document::borrow(id)),
        None => None,
    }
}

/// Runs the conflict resolver on a conflict the replicator found: the local
/// and remote revisions (`None` for a deleted one) are handed to it once, and
/// the revision it returns is the one handed back to be saved. Without a
/// resolver nothing is handed back.
pub fn run_conflict_resolver<C: Fn(String, Option<Document>, Option<Document>) -> Option<Document>>(
    resolver: &Option<C>,
    document_id: String,
    local: Option<usize>,
    remote: Option<usize>,
) -> (r: Option<usize>)
    requires
        resolver matches Some(f) ==> f.requires((document_id, borrowed(local), borrowed(remote))),
    ensures
        resolver is None ==> r is None,
        resolver matches Some(f) ==> exists|choice: Option<Document>|
            f.ensures((document_id, borrowed(local), borrowed(remote)), choice) && r == resolution(
                choice,
            ),
{
    match resolver {
        Some(f) => {
            let ghost args = (document_id, borrowed(local), borrowed(remote));
            let choice = f(document_id, borrow_optional(local), borrow_optional(remote));
            let r = match &choice {
                Some(d) => Some(d.get_ref()),
                None => None,
            };
            assert(f.ensures(args, choice) && r == resolution(choice));
            r
        },
        None => None,
    }
}

/// What a property encryptor or decryptor trampoline hands back: the output
/// bytes (`None` for a null result), and the error to report, if any.
#[derive(Debug)]
pub struct CryptoOutcome {
    pub output: Option<Vec<u8>>,
    pub error: Option<Error>,
}

/// The error already in the native record the trampoline is handed.
pub open spec fn prior_error(err: CBLError) -> Option<Error> {
    if err.code != 0 {
        Some(error_of(err))
    } else {
        None
    }
}

/// The outcome for what the callback returned: its bytes with the prior
/// error left as it was, or a null result with the error of its failure.
pub open spec fn reply_outcome(reply: Result<Vec<u8>, EncryptionError>, prior: CBLError) -> CryptoOutcome {
    match reply {
        Ok(bytes) => CryptoOutcome { output: Some(bytes), error: prior_error(prior) },
        Err(e) => CryptoOutcome { output: None, error: Some(encryption_failure(e)) },
    }
}

/// The error that a trampoline starts from.
fn prior(err: &CBLError) -> (r: Option<Error>)
    ensures
        r == prior_error(*err),
{
    if err.code != 0 {
        Some(Error::new(err))
    } else {
        None
    }
}

/// Turns what a property encryptor or decryptor returned into the outcome
/// handed to the native side.
pub fn crypto_reply_outcome(reply: Result<Vec<u8>, EncryptionError>, prior_err: &CBLError) -> (r: CryptoOutcome)
    ensures
        r == reply_outcome(reply, *prior_err),
{
    match reply {
        Ok(bytes) => CryptoOutcome { output: Some(bytes), error: prior(prior_err) },
        Err(e) => CryptoOutcome { output: None, error: Some(e.to_error()) },
    }
}

/// Runs a property encryptor or decryptor on a property the replicator
/// hands over. `input` is `None` when the native input was null: that is a
/// crypto error, and the callback is not called. Without a callback the
/// output is empty. Otherwise the callback is called once and its reply
/// decides the outcome.
pub fn run_property_crypto<A, K: Fn(A) -> Result<Vec<u8>, EncryptionError>>(
    callback: &Option<K>,
    input: Option<A>,
    prior_err: &CBLError,
) -> (r: CryptoOutcome)
    requires
        callback matches Some(f) ==> (input matches Some(a) ==> f.requires((a,))),
    ensures
        input is None ==> (r.output matches Some(b) && b@.len() == 0 && r.error == Some(
            Error { code: ErrorCode::CouchbaseLite(CouchbaseLiteError::Crypto), internal_info: None },
        )),
        input is Some && callback is None ==> (r.output matches Some(b) && b@.len() == 0
            && r.error == prior_error(*prior_err)),
        callback matches Some(f) ==> (input matches Some(a) ==> exists|
            reply: Result<Vec<u8>, EncryptionError>,
        | f.ensures((a,), reply) && r == reply_outcome(reply, *prior_err)),
{
    match input {
        None => CryptoOutcome {
            output: Some(Vec::new()),
            error: Some(Error::cbl_error(CouchbaseLiteError::Crypto)),
        },
        Some(a) => match callback {
            None => CryptoOutcome { output: Some(Vec::new()), error: prior(prior_err) },
            Some(f) => {
                let reply = f(a);
                crypto_reply_outcome(reply, prior_err)
            },
        },
    }
}

} // verus!
