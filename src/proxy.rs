//! HTTP proxy settings for a replicator.

use vstd::prelude::*;
use crate::c_api::{CBLProxySettings, CBL_PROXY_HTTP, CBL_PROXY_HTTPS};

verus! {

/// Kinds of proxy server.
#[derive(Clone, Copy, Debug, PartialEq, Eq, Structural)]
pub enum ProxyType {
    HTTP,
    HTTPS,
}

impl ProxyType {
    /// The native value of each kind.
    pub open spec fn spec_native(self) -> u8 {
        match self {
            ProxyType::HTTP => CBL_PROXY_HTTP,
            ProxyType::HTTPS => CBL_PROXY_HTTPS,
        }
    }

    /// The native value of this kind.
    pub fn to_native(&self) -> (r: u8)
        ensures
            r == self.spec_native(),
    {
        match self {
            ProxyType::HTTP => CBL_PROXY_HTTP,
            ProxyType::HTTPS => CBL_PROXY_HTTPS,
        }
    }

    /// The kind a native value names.
    pub fn from_native(v: u8) -> (r: ProxyType)
        requires
            v <= CBL_PROXY_HTTPS,
        ensures
            r.spec_native() == v,
    {
        if v == CBL_PROXY_HTTP {
            ProxyType::HTTP
        } else {
            ProxyType::HTTPS
        }
    }
}

/// Proxy settings of a replicator.
#[derive(Debug)]
pub struct ProxySettings {
    pub proxy_type: ProxyType,
    pub hostname: Option<String>,
    pub port: u16,
    pub username: Option<String>,
    pub password: Option<String>,
}

/// The text of an optional string.
pub open spec fn text_of(s: Option<String>) -> Option<Seq<char>> {
    match s {
        Some(t) => Some(t@),
        None => None,
    }
}

/// A copy of an optional string.
pub fn copy_text(s: &Option<String>) -> (r: Option<String>)
    ensures
        text_of(r) == text_of(*s),
{
    match s {
        Some(t) => Some(t.clone()),
        None => None,
    }
}

impl ProxySettings {
    /// Settings for a proxy of the given kind, host, port and credentials.
    pub fn new(
        proxy_type: ProxyType,
        hostname: Option<String>,
        port: u16,
        username: Option<String>,
        password: Option<String>,
    ) -> (r: ProxySettings)
        ensures
            r.proxy_type == proxy_type,
            r.hostname == hostname,
            r.port == port,
            r.username == username,
            r.password == password,
    {
        ProxySettings { proxy_type, hostname, port, username, password }
    }

    /// The native settings: the kind's native value, the port, and each
    /// string (a null slice where it is absent).
    pub fn to_native(&self) -> (r: CBLProxySettings)
        ensures
            r.proxy_type == self.proxy_type.spec_native(),
            r.port == self.port,
            text_of(r.hostname) == text_of(self.hostname),
            text_of(r.username) == text_of(self.username),
            text_of(r.password) == text_of(self.password),
    {
        CBLProxySettings {
            proxy_type: self.proxy_type.to_native(),
            hostname: copy_text(&self.hostname),
            port: self.port,
            username: copy_text(&self.username),
            password: copy_text(&self.password),
        }
    }
}

} // verus!
