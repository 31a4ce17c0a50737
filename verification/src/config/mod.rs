//! How to reach the database: where it listens and who signs in.

pub mod auth;

pub use auth::{AuthCredentials, CredentialError, Database, Namespace, Root, Scope, Shape, SurrealCredentials};

use crate::text::decimal;
use vstd::prelude::*;

verus! {

/// What `u16::to_string` gives: the number in decimal.
#[verifier::external_body]
fn port_text(port: u16) -> (out: String)
    ensures
        out@ == decimal(port as nat),
{
    port.to_string()
}

/// The configuration of one database: its address, its port, and the
/// credentials in the form `A`, which is carried and never read here.
#[derive(Clone, Debug)]
pub struct SurrealConfig<A> {
    endpoint: String,
    port: u16,
    auth: A,
}

impl<A> SurrealConfig<A> {
    /// The address.
    pub closed spec fn endpoint(self) -> Seq<char> {
        self.endpoint@
    }

    /// The port.
    pub closed spec fn port(self) -> u16 {
        self.port
    }

    /// The credentials, as they were given.
    pub closed spec fn auth(self) -> A {
        self.auth
    }

    /// The address and the port, with a colon between them.
    pub open spec fn url_text(self) -> Seq<char> {
        self.endpoint() + ":"@ + decimal(self.port() as nat)
    }

    pub fn new(endpoint: &str, port: u16, auth: A) -> (c: SurrealConfig<A>)
        ensures
            c.endpoint() == endpoint@,
            c.port() == port,
            c.auth() == auth,
    {
        SurrealConfig { endpoint: endpoint.to_owned(), port, auth }
    }

    /// The credentials, as they were given.
    pub fn auth_value(&self) -> (auth: &A)
        ensures
            *auth == self.auth(),
    {
        &self.auth
    }

    pub fn get_endpoint(&self) -> (endpoint: &str)
        ensures
            endpoint@ == self.endpoint(),
    {
        self.endpoint.as_str()
    }

    pub fn get_port(&self) -> (port: u16)
        ensures
            port == self.port(),
    {
        self.port
    }

    /// The address and the port, as one string.
    pub fn url(&self) -> (out: String)
        ensures
            out@ == self.url_text(),
    {
        let mut out = self.endpoint.clone();
        let port = port_text(self.port);
        out.append(":");
        out.append(port.as_str());
        out
    }
}

} // verus!
