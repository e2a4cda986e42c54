//! Handle, error and callback logic of a binding to the Couchbase Lite
//! native library, with each step's behaviour stated and proved.

pub mod c_api;
pub mod error;
pub mod handle;
pub mod document;
pub mod database;
pub mod collection;
pub mod replicator;
pub mod callbacks;
pub mod proxy;
pub mod endpoint;
pub mod configuration;
pub mod listener;
pub mod field_encryption;

pub use callbacks::{EncryptionError, ReplicationConfigurationContext};
pub use collection::{Collection, Scope};
pub use configuration::{ReplicationCollection, ReplicatorConfiguration};
pub use database::{Database, DatabaseConfiguration, EncryptionKey, MaintenanceType};
pub use document::{ConcurrencyControl, Document, Timestamp};
pub use endpoint::{Authenticator, Endpoint};
pub use error::{CblResult, CouchbaseLiteError, Error, ErrorCode};
pub use field_encryption::Encryptable;
pub use handle::{NativeRef, Ownership, RefLedger};
pub use proxy::{ProxySettings, ProxyType};
pub use replicator::{Direction, ReplicatedDocument, ReplicatorActivityLevel, ReplicatorType};
