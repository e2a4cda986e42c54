//! Databases: handles, configuration, and the translation of what the native
//! database calls report.

use vstd::prelude::*;
use crate::c_api::{
    CBLError, CBL_ENCRYPTION_AES256, CBL_ENCRYPTION_NONE, CBL_MAINTENANCE_COMPACT,
    CBL_MAINTENANCE_FULL_OPTIMIZE, CBL_MAINTENANCE_INTEGRITY_CHECK, CBL_MAINTENANCE_OPTIMIZE,
    CBL_MAINTENANCE_REINDEX, ENCRYPTION_KEY_SIZE,
};
use crate::error::{error_of, failure, CblResult, Error};
use crate::handle::{NativeRef, RefLedger};

verus! {

/// A key for an encrypted database: the algorithm and its key bytes.
#[derive(Clone, Debug)]
pub struct EncryptionKey {
    algorithm: u32,
    bytes: Vec<u8>,
}

impl EncryptionKey {
    /// The algorithm of the key.
    pub closed spec fn spec_algorithm(&self) -> u32 {
        self.algorithm
    }

    /// The key bytes.
    pub closed spec fn spec_bytes(&self) -> Seq<u8> {
        self.bytes@
    }

    /// A key names a known algorithm and has the native key size.
    pub open spec fn wf(&self) -> bool {
        &&& (self.spec_algorithm() == CBL_ENCRYPTION_NONE || self.spec_algorithm()
            == CBL_ENCRYPTION_AES256)
        &&& self.spec_bytes().len() == ENCRYPTION_KEY_SIZE
    }

    /// The blank key that a password is derived into: no algorithm, all
    /// bytes zero.
    pub fn blank() -> (r: EncryptionKey)
        ensures
            r.wf(),
            r.spec_algorithm() == CBL_ENCRYPTION_NONE,
            r.spec_bytes() == Seq::new(ENCRYPTION_KEY_SIZE as nat, |_i| 0u8),
    {
        let mut bytes: Vec<u8> = Vec::new();
        let mut i: usize = 0;
        while i < ENCRYPTION_KEY_SIZE
            invariant
                i <= ENCRYPTION_KEY_SIZE,
                bytes@ == Seq::new(i as nat, |_i| 0u8),
            decreases ENCRYPTION_KEY_SIZE - i,
        {
            bytes.push(0u8);
            i = i + 1;
            assert(bytes@ =~= Seq::new(i as nat, |_i| 0u8));
        }
        EncryptionKey { algorithm: CBL_ENCRYPTION_NONE, bytes }
    }

    /// A key from its parts; `None` unless the algorithm is known and the key
    /// has the native size.
    pub fn from_parts(algorithm: u32, bytes: Vec<u8>) -> (r: Option<EncryptionKey>)
        ensures
            r is Some <==> ((algorithm == CBL_ENCRYPTION_NONE || algorithm
                == CBL_ENCRYPTION_AES256) && bytes@.len() == ENCRYPTION_KEY_SIZE),
            r matches Some(k) ==> k.wf() && k.spec_algorithm() == algorithm && k.spec_bytes()
                == bytes@,
    {
        if (algorithm == CBL_ENCRYPTION_NONE || algorithm == CBL_ENCRYPTION_AES256) && bytes.len()
            == ENCRYPTION_KEY_SIZE {
            Some(EncryptionKey { algorithm, bytes })
        } else {
            None
        }
    }

    /// The result of deriving a key from a password: the derived key when the
    /// native derivation succeeded.
    pub fn from_password_result(derived: bool, key: EncryptionKey) -> (r: Option<EncryptionKey>)
        ensures
            derived ==> r == Some(key),
            !derived ==> r is None,
    {
        if derived {
            Some(key)
        } else {
            None
        }
    }

    /// The algorithm of the key.
    pub fn algorithm(&self) -> (r: u32)
        ensures
            r == self.spec_algorithm(),
    {
        self.algorithm
    }

    /// The key bytes.
    pub fn bytes(&self) -> (r: &Vec<u8>)
        ensures
            r@ == self.spec_bytes(),
    {
        &self.bytes
    }
}

/// Database configuration options.
#[derive(Clone, Debug)]
pub struct DatabaseConfiguration {
    pub directory: String,
    pub encryption_key: Option<EncryptionKey>,
}

/// Kinds of database maintenance.
#[derive(Clone, Copy, Debug, PartialEq, Eq, Structural)]
pub enum MaintenanceType {
    Compact,
    Reindex,
    IntegrityCheck,
    Optimize,
    FullOptimize,
}

impl MaintenanceType {
    /// The native value of each kind.
    pub open spec fn spec_native(self) -> u32 {
        match self {
            MaintenanceType::Compact => CBL_MAINTENANCE_COMPACT,
            MaintenanceType::Reindex => CBL_MAINTENANCE_REINDEX,
            MaintenanceType::IntegrityCheck => CBL_MAINTENANCE_INTEGRITY_CHECK,
            MaintenanceType::Optimize => CBL_MAINTENANCE_OPTIMIZE,
            MaintenanceType::FullOptimize => CBL_MAINTENANCE_FULL_OPTIMIZE,
        }
    }

    /// The value passed to the native maintenance call.
    pub fn to_native(&self) -> (r: u32)
        ensures
            r == self.spec_native(),
    {
        match self {
            MaintenanceType::Compact => CBL_MAINTENANCE_COMPACT,
            MaintenanceType::Reindex => CBL_MAINTENANCE_REINDEX,
            MaintenanceType::IntegrityCheck => CBL_MAINTENANCE_INTEGRITY_CHECK,
            MaintenanceType::Optimize => CBL_MAINTENANCE_OPTIMIZE,
            MaintenanceType::FullOptimize => CBL_MAINTENANCE_FULL_OPTIMIZE,
        }
    }
}

/// A connection to an open database. Two wrappers on the same native
/// database are equal.
#[derive(Debug)]
pub struct Database {
    pub cbl_ref: NativeRef,
}

impl PartialEq for Database {
    fn eq(&self, other: &Database) -> (r: bool) {
        self.cbl_ref.id == other.cbl_ref.id
    }
}

impl vstd::std_specs::cmp::PartialEqSpecImpl for Database {
    open spec fn obeys_eq_spec() -> bool {
        true
    }

    open spec fn eq_spec(&self, other: &Database) -> bool {
        self.cbl_ref.id == other.cbl_ref.id
    }
}

impl Database {
    /// Wraps a native database whose reference the caller already owns.
    pub fn wrap(id: usize) -> (r: Database)
        ensures
            r.cbl_ref == (NativeRef { id, owned: true }),
    {
        Database { cbl_ref: NativeRef { id, owned: true } }
    }

    /// Wraps a native database with a reference of its own.
    pub fn retain(ledger: &mut RefLedger, id: usize) -> (r: Database)
        requires
            old(ledger).is_live(id),
            old(ledger)@[id as int] < u64::MAX,
        ensures
            r.cbl_ref == (NativeRef { id, owned: true }),
            final(ledger)@ == old(ledger)@.update(id as int, (old(ledger)@[id as int] + 1) as u64),
    {
        Database { cbl_ref: ledger.retain(id) }
    }

    /// The id of the native database.
    pub fn get_ref(&self) -> (r: usize)
        ensures
            r == self.cbl_ref.id,
    {
        self.cbl_ref.id
    }

    /// The result of opening a database: `opened` is the database the native
    /// call returned, or `None` for a null result.
    pub fn open_result(opened: Option<usize>, err: &CBLError) -> (r: CblResult<Database>)
        ensures
            opened matches Some(id) ==> r == Ok::<Database, Error>(
                Database { cbl_ref: NativeRef { id, owned: true } },
            ),
            opened is None ==> r == Err::<Database, Error>(error_of(*err)),
    {
        match opened {
            Some(id) => Ok(Database::wrap(id)),
            None => failure(err),
        }
    }

    /// The result of deleting a database file: `Ok(true)` when it was deleted,
    /// `Ok(false)` when there was none, the native error otherwise.
    pub fn delete_file_result(deleted: bool, err: &CBLError) -> (r: CblResult<bool>)
        ensures
            deleted ==> r == Ok::<bool, Error>(true),
            !deleted && err.code == 0 ==> r == Ok::<bool, Error>(false),
            !deleted && err.code != 0 ==> r == Err::<bool, Error>(error_of(*err)),
    {
        if deleted {
            Ok(true)
        } else if err.code == 0 {
            Ok(false)
        } else {
            failure(err)
        }
    }

    /// Whether a transaction is committed, given what its body returned: it is
    /// committed exactly when the body succeeded, and aborted otherwise.
    pub fn transaction_commits<T>(result: &CblResult<T>) -> (r: bool)
        ensures
            r == result is Ok,
    {
        result.is_ok()
    }

    /// The result of a transaction: the failure of its start, else the
    /// failure of its end, else what its body returned.
    pub fn transaction_result<T>(
        began: bool,
        begin_err: &CBLError,
        body: Option<CblResult<T>>,
        ended: bool,
        end_err: &CBLError,
    ) -> (r: CblResult<T>)
        requires
            began <==> body is Some,
        ensures
            !began ==> r == Err::<T, Error>(error_of(*begin_err)),
            began && !ended ==> r == Err::<T, Error>(error_of(*end_err)),
            began && ended ==> r == body.unwrap(),
    {
        match body {
            None => failure(begin_err),
            Some(result) => {
                if !ended {
                    failure(end_err)
                } else {
                    result
                }
            },
        }
    }
}

} // verus!
