//! Replicator states and directions, the documents that a replicator reports,
//! and the decisions of a blocking stop.

use vstd::prelude::*;
use crate::c_api::{
    CBLError, ACCESS_REMOVED, CBL_REPLICATOR_BUSY, CBL_REPLICATOR_CONNECTING,
    CBL_REPLICATOR_IDLE, CBL_REPLICATOR_OFFLINE, CBL_REPLICATOR_STOPPED,
    CBL_REPLICATOR_TYPE_PULL, CBL_REPLICATOR_TYPE_PUSH, CBL_REPLICATOR_TYPE_PUSH_AND_PULL, DELETED,
};
use crate::error::{check_error, error_of, CblResult, CouchbaseLiteError, Error, ErrorCode};

verus! {

/// Direction of replication: push, pull, or both.
#[derive(Clone, Copy, Debug, PartialEq, Eq, Structural)]
pub enum ReplicatorType {
    PushAndPull,
    Push,
    Pull,
}

impl ReplicatorType {
    /// The native value of each direction.
    pub open spec fn spec_native(self) -> u8 {
        match self {
            ReplicatorType::PushAndPull => CBL_REPLICATOR_TYPE_PUSH_AND_PULL,
            ReplicatorType::Push => CBL_REPLICATOR_TYPE_PUSH,
            ReplicatorType::Pull => CBL_REPLICATOR_TYPE_PULL,
        }
    }

    /// The native value of this direction.
    pub fn to_native(&self) -> (r: u8)
        ensures
            r == self.spec_native(),
    {
        match self {
            ReplicatorType::PushAndPull => CBL_REPLICATOR_TYPE_PUSH_AND_PULL,
            ReplicatorType::Push => CBL_REPLICATOR_TYPE_PUSH,
            ReplicatorType::Pull => CBL_REPLICATOR_TYPE_PULL,
        }
    }

    /// The direction a native value names.
    pub fn from_native(v: u8) -> (r: ReplicatorType)
        requires
            v <= CBL_REPLICATOR_TYPE_PULL,
        ensures
            r.spec_native() == v,
    {
        if v == CBL_REPLICATOR_TYPE_PUSH_AND_PULL {
            ReplicatorType::PushAndPull
        } else if v == CBL_REPLICATOR_TYPE_PUSH {
            ReplicatorType::Push
        } else {
            ReplicatorType::Pull
        }
    }
}

/// The states a replicator can be in during its lifecycle.
#[derive(Clone, Copy, Debug, PartialEq, Eq, Structural)]
pub enum ReplicatorActivityLevel {
    Stopped,
    Offline,
    Connecting,
    Idle,
    Busy,
}

impl ReplicatorActivityLevel {
    /// The native value of each state.
    pub open spec fn spec_native(self) -> u8 {
        match self {
            ReplicatorActivityLevel::Stopped => CBL_REPLICATOR_STOPPED,
            ReplicatorActivityLevel::Offline => CBL_REPLICATOR_OFFLINE,
            ReplicatorActivityLevel::Connecting => CBL_REPLICATOR_CONNECTING,
            ReplicatorActivityLevel::Idle => CBL_REPLICATOR_IDLE,
            ReplicatorActivityLevel::Busy => CBL_REPLICATOR_BUSY,
        }
    }

    /// The native value of this state.
    pub fn to_native(&self) -> (r: u8)
        ensures
            r == self.spec_native(),
    {
        match self {
            ReplicatorActivityLevel::Stopped => CBL_REPLICATOR_STOPPED,
            ReplicatorActivityLevel::Offline => CBL_REPLICATOR_OFFLINE,
            ReplicatorActivityLevel::Connecting => CBL_REPLICATOR_CONNECTING,
            ReplicatorActivityLevel::Idle => CBL_REPLICATOR_IDLE,
            ReplicatorActivityLevel::Busy => CBL_REPLICATOR_BUSY,
        }
    }

    /// The state a native value names.
    pub fn from_native(level: u8) -> (r: ReplicatorActivityLevel)
        requires
            level <= CBL_REPLICATOR_BUSY,
        ensures
            r.spec_native() == level,
    {
        if level == CBL_REPLICATOR_STOPPED {
            ReplicatorActivityLevel::Stopped
        } else if level == CBL_REPLICATOR_OFFLINE {
            ReplicatorActivityLevel::Offline
        } else if level == CBL_REPLICATOR_CONNECTING {
            ReplicatorActivityLevel::Connecting
        } else if level == CBL_REPLICATOR_IDLE {
            ReplicatorActivityLevel::Idle
        } else {
            ReplicatorActivityLevel::Busy
        }
    }
}

/// Replicator directions and states survive the trip to their native values
/// and back.
pub proof fn lemma_native_values_round_trip(t: ReplicatorType, a: ReplicatorActivityLevel)
    ensures
        t.spec_native() <= CBL_REPLICATOR_TYPE_PULL,
        a.spec_native() <= CBL_REPLICATOR_BUSY,
        forall|u: ReplicatorType| u.spec_native() == t.spec_native() ==> u == t,
        forall|b: ReplicatorActivityLevel| b.spec_native() == a.spec_native() ==> b == a,
{
}

/// Direction of a document transfer.
#[derive(Clone, Copy, Debug, PartialEq, Eq, Structural)]
pub enum Direction {
    Pulled,
    Pushed,
}

impl Direction {
    /// The direction of a transfer the native listener reports.
    pub fn from_is_push(is_push: bool) -> (r: Direction)
        ensures
            is_push ==> r == Direction::Pushed,
            !is_push ==> r == Direction::Pulled,
    {
        if is_push {
            Direction::Pushed
        } else {
            Direction::Pulled
        }
    }
}

/// Whether flags mark a document deleted, and whether they mark the user's
/// access to it removed.
pub open spec fn document_flags(flags: u32) -> (bool, bool) {
    (flags & DELETED != 0, flags & ACCESS_REMOVED != 0)
}

/// Reads the deleted and access-removed marks of replicated-document flags.
pub fn read_document_flags(flags: u32) -> (r: (bool, bool))
    ensures
        r == document_flags(flags),
{
    (flags & DELETED != 0, flags & ACCESS_REMOVED != 0)
}

/// A document entry as the native document listener reports it: its id (if
/// it reads as a string), its flags and its error record.
#[derive(Clone, Debug)]
pub struct NativeReplicatedDocument {
    pub id: Option<String>,
    pub flags: u32,
    pub error: CBLError,
}

/// Information about a document that has been pushed or pulled.
#[derive(Debug)]
pub struct ReplicatedDocument {
    pub id: String,
    pub flags: u32,
    pub error: CblResult<()>,
}

/// What a native error record of a replicated document means.
pub open spec fn document_error(err: CBLError) -> CblResult<()> {
    if err.code == 0 {
        Ok(())
    } else {
        Err(error_of(err))
    }
}

/// The entries that have an id, in order.
pub open spec fn with_ids(entries: Seq<NativeReplicatedDocument>) -> Seq<NativeReplicatedDocument>
    decreases entries.len(),
{
    if entries.len() == 0 {
        Seq::empty()
    } else {
        let rest = with_ids(entries.drop_last());
        if entries.last().id is Some {
            rest.push(entries.last())
        } else {
            rest
        }
    }
}

/// A reported document matches the native entry it was made from.
pub open spec fn reports(d: ReplicatedDocument, e: NativeReplicatedDocument) -> bool {
    &&& e.id matches Some(id) && d.id@ == id@
    &&& d.flags == e.flags
    &&& d.error == document_error(e.error)
}

/// The documents a replicator reports: one for each native entry whose id
/// reads as a string, in order; entries without an id are left out.
pub fn replicated_documents(entries: &Vec<NativeReplicatedDocument>) -> (r: Vec<ReplicatedDocument>)
    ensures
        r@.len() == with_ids(entries@).len(),
        forall|i: int| 0 <= i < r@.len() ==> #[trigger] reports(r@[i], with_ids(entries@)[i]),
{
    let mut docs: Vec<ReplicatedDocument> = Vec::new();
    let mut i: usize = 0;
    while i < entries.len()
        invariant
            i <= entries@.len(),
            docs@.len() == with_ids(entries@.subrange(0, i as int)).len(),
            forall|j: int|
                0 <= j < docs@.len() ==> #[trigger] reports(
                    docs@[j],
                    with_ids(entries@.subrange(0, i as int))[j],
                ),
        decreases entries@.len() - i,
    {
        let ghost prefix = entries@.subrange(0, i as int);
        let ghost next = entries@.subrange(0, i as int + 1);
        assert(next.drop_last() =~= prefix);
        assert(next.last() == entries@[i as int]);
        let entry = &entries[i];
        match &entry.id {
            Some(id) => {
                let error = check_error(&entry.error);
                docs.push(ReplicatedDocument { id: id.clone(), flags: entry.flags, error });
            },
            None => {},
        }
        i = i + 1;
    }
    assert(entries@.subrange(0, entries@.len() as int) =~= entries@);
    docs
}

/// The wait, in seconds, of a blocking stop: the one asked for, else ten.
pub fn stop_timeout(timeout_seconds: Option<u64>) -> (r: u64)
    ensures
        r == match timeout_seconds {
            Some(t) => t,
            None => 10,
        },
{
    match timeout_seconds {
        Some(t) => t,
        None => 10,
    }
}

/// Whether a blocking stop has to ask the replicator to stop and wait: only
/// when it is not stopped already.
pub fn stop_needed(activity: ReplicatorActivityLevel) -> (r: bool)
    ensures
        r == (activity != ReplicatorActivityLevel::Stopped),
{
    match activity {
        ReplicatorActivityLevel::Stopped => false,
        _ => true,
    }
}

/// Whether a blocking stop succeeded: at once for a stopped replicator, else
/// when the stopped state was reported within the wait.
pub fn stop_succeeded(activity: ReplicatorActivityLevel, stopped_in_time: bool) -> (r: bool)
    ensures
        r == (activity == ReplicatorActivityLevel::Stopped || stopped_in_time),
{
    if stop_needed(activity) {
        stopped_in_time
    } else {
        true
    }
}

/// Whether a reported state ends a blocking stop's wait.
pub fn ends_stop_wait(activity: ReplicatorActivityLevel) -> (r: bool)
    ensures
        r == (activity == ReplicatorActivityLevel::Stopped),
{
    !stop_needed(activity)
}

/// What a replicator status's native error record means.
pub fn status_error(err: &CBLError) -> (r: CblResult<()>)
    ensures
        r == document_error(*err),
{
    check_error(err)
}

/// The ids of the documents still to be pushed, from the keys of the
/// dictionary the native call returned: the native error if it reported one,
/// "not found" if it returned nothing, else the keys.
pub fn pending_document_ids_result(keys: Option<Vec<String>>, err: &CBLError) -> (r: CblResult<Vec<String>>)
    ensures
        err.code != 0 ==> r == Err::<Vec<String>, Error>(error_of(*err)),
        err.code == 0 && keys is None ==> r == Err::<Vec<String>, Error>(
            Error { code: ErrorCode::CouchbaseLite(CouchbaseLiteError::NotFound), internal_info: None },
        ),
        err.code == 0 && keys is Some ==> r == Ok::<Vec<String>, Error>(keys.unwrap()),
{
    match check_error(err) {
        Err(e) => Err(e),
        Ok(()) => match keys {
            Some(k) => Ok(k),
            None => Err(Error::cbl_error(CouchbaseLiteError::NotFound)),
        },
    }
}

} // verus!
