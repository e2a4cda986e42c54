//! Plain-value mirrors of the native library's C types and constants.
//!
//! The native library itself is reached only from outside this crate; what
//! crosses the boundary is described here as ordinary values, so that the
//! logic around each native call can be stated and proved.

use vstd::prelude::*;

verus! {

/// Native error domains (`CBLErrorDomain`).
pub const CBL_DOMAIN: u8 = 1;
pub const CBL_POSIX_DOMAIN: u8 = 2;
pub const CBL_SQLITE_DOMAIN: u8 = 3;
pub const CBL_FLEECE_DOMAIN: u8 = 4;
pub const CBL_NETWORK_DOMAIN: u8 = 5;
pub const CBL_WEBSOCKET_DOMAIN: u8 = 6;

/// Document flags reported to replication filters and document listeners.
pub const DELETED: u32 = 1;
pub const ACCESS_REMOVED: u32 = 2;

/// Replicator activity levels (`CBLReplicatorActivityLevel`).
pub const CBL_REPLICATOR_STOPPED: u8 = 0;
pub const CBL_REPLICATOR_OFFLINE: u8 = 1;
pub const CBL_REPLICATOR_CONNECTING: u8 = 2;
pub const CBL_REPLICATOR_IDLE: u8 = 3;
pub const CBL_REPLICATOR_BUSY: u8 = 4;

/// Replicator directions (`CBLReplicatorType`).
pub const CBL_REPLICATOR_TYPE_PUSH_AND_PULL: u8 = 0;
pub const CBL_REPLICATOR_TYPE_PUSH: u8 = 1;
pub const CBL_REPLICATOR_TYPE_PULL: u8 = 2;

/// Proxy kinds (`CBLProxyType`).
pub const CBL_PROXY_HTTP: u8 = 0;
pub const CBL_PROXY_HTTPS: u8 = 1;

/// Save/delete conflict policies (`CBLConcurrencyControl`).
pub const CBL_CONCURRENCY_LAST_WRITE_WINS: u8 = 0;
pub const CBL_CONCURRENCY_FAIL_ON_CONFLICT: u8 = 1;

/// Maintenance operations (`CBLMaintenanceType`).
pub const CBL_MAINTENANCE_COMPACT: u32 = 0;
pub const CBL_MAINTENANCE_REINDEX: u32 = 1;
pub const CBL_MAINTENANCE_INTEGRITY_CHECK: u32 = 2;
pub const CBL_MAINTENANCE_OPTIMIZE: u32 = 3;
pub const CBL_MAINTENANCE_FULL_OPTIMIZE: u32 = 4;

/// Encryption algorithms (`CBLEncryptionAlgorithm`).
pub const CBL_ENCRYPTION_NONE: u32 = 0;
pub const CBL_ENCRYPTION_AES256: u32 = 1;

/// Size in bytes of a native encryption key.
pub const ENCRYPTION_KEY_SIZE: usize = 32;

/// The native error record (`CBLError`). A `code` of zero means "no error".
#[derive(Clone, Copy, Debug, PartialEq, Eq, Structural)]
pub struct CBLError {
    pub domain: u8,
    pub code: i32,
    pub internal_info: u32,
}

impl CBLError {
    /// The record a native call starts from: no error.
    pub fn none() -> (r: CBLError)
        ensures
            r.domain == 0,
            r.code == 0,
            r.internal_info == 0,
    {
        CBLError { domain: 0, code: 0, internal_info: 0 }
    }
}

/// Native proxy settings (`CBLProxySettings`); an absent string is passed as
/// a null slice.
#[derive(Debug)]
pub struct CBLProxySettings {
    pub proxy_type: u8,
    pub hostname: Option<String>,
    pub port: u16,
    pub username: Option<String>,
    pub password: Option<String>,
}

/// The per-collection part of a native replicator configuration
/// (`CBLReplicationCollection`): the collection, and which trampolines are
/// installed for it.
#[derive(Clone, Copy, Debug, PartialEq, Eq, Structural)]
pub struct CBLReplicationCollection {
    pub collection: usize,
    pub conflict_resolver: bool,
    pub push_filter: bool,
    pub pull_filter: bool,
}

/// The native replicator configuration (`CBLReplicatorConfiguration`), apart
/// from the headers, certificates, channels and document ids, which are
/// passed through as they are.
#[derive(Debug)]
pub struct CBLReplicatorConfiguration {
    pub database: Option<usize>,
    pub endpoint: usize,
    pub replicator_type: u8,
    pub continuous: bool,
    pub disable_auto_purge: bool,
    pub max_attempts: u32,
    pub max_attempt_wait_time: u32,
    pub heartbeat: u32,
    pub authenticator: Option<usize>,
    pub proxy: Option<CBLProxySettings>,
    pub push_filter: bool,
    pub pull_filter: bool,
    pub conflict_resolver: bool,
    pub property_encryptor: bool,
    pub property_decryptor: bool,
    pub collections: Option<Vec<CBLReplicationCollection>>,
    pub collection_count: usize,
    pub accept_parent_domain_cookies: bool,
}

} // verus!
