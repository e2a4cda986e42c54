//! Replication endpoints and authenticators: handles on native objects.

use vstd::prelude::*;
use crate::c_api::CBLError;
use crate::error::{check_error, error_of, CblResult};
use crate::handle::NativeRef;

verus! {

/// The location of a database to replicate with: a remote URL, or a local
/// database (then without a URL).
#[derive(Debug)]
pub struct Endpoint {
    pub cbl_ref: NativeRef,
    pub url: Option<String>,
}

impl Endpoint {
    /// The result of making an endpoint for `url`: the endpoint the native
    /// call made (adopted here), unless it reported an error.
    pub fn url_result(created: usize, url: String, err: &CBLError) -> (r: CblResult<Endpoint>)
        ensures
            err.code != 0 ==> (r matches Err(e) && e == error_of(*err)),
            err.code == 0 ==> (r matches Ok(ep) && ep.cbl_ref == (NativeRef { id: created, owned: true })
                && ep.url == Some(url)),
    {
        match check_error(err) {
            Err(e) => Err(e),
            Ok(()) => Ok(Endpoint { cbl_ref: NativeRef { id: created, owned: true }, url: Some(url) }),
        }
    }

    /// An endpoint on a local database, made by the native call.
    pub fn local(created: usize) -> (r: Endpoint)
        ensures
            r.cbl_ref == (NativeRef { id: created, owned: true }),
            r.url is None,
    {
        Endpoint { cbl_ref: NativeRef { id: created, owned: true }, url: None }
    }

    /// The id of the native endpoint.
    pub fn get_ref(&self) -> (r: usize)
        ensures
            r == self.cbl_ref.id,
    {
        self.cbl_ref.id
    }
}

/// Authentication credentials for a remote server.
#[derive(Debug)]
pub struct Authenticator {
    pub cbl_ref: NativeRef,
}

impl Authenticator {
    /// Wraps the authenticator a native factory call made.
    pub fn wrap(created: usize) -> (r: Authenticator)
        ensures
            r.cbl_ref == (NativeRef { id: created, owned: true }),
    {
        Authenticator { cbl_ref: NativeRef { id: created, owned: true } }
    }

    /// The id of the native authenticator.
    pub fn get_ref(&self) -> (r: usize)
        ensures
            r == self.cbl_ref.id,
    {
        self.cbl_ref.id
    }
}

} // verus!
