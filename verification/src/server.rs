//! The settings of the server: the router it serves and the port it listens
//! on.

use crate::error::Error;
use vstd::prelude::*;

verus! {

/// The port that a server listens on unless it is told another.
pub const DEFAULT_PORT: u16 = 3000;

/// A router together with the port on which it is to be served.
pub struct RustAPI {
    pub router: axum::Router<()>,
    pub port: u16,
}

impl RustAPI {
    /// A server for `router` on the default port.
    pub fn new(router: axum::Router<()>) -> (server: Self)
        ensures
            server.router == router,
            server.port == DEFAULT_PORT,
    {
        RustAPI { router, port: DEFAULT_PORT }
    }

    /// The same server, listening on `port` instead.
    pub fn port(self, port: u16) -> (server: Self)
        ensures
            server.router == self.router,
            server.port == port,
    {
        RustAPI { router: self.router, port }
    }

    /// The failure of a server that could not take its port.
    pub fn bind_failure(&self) -> (failure: Error)
        ensures
            failure == (Error::BindFailure { port: self.port }),
    {
        Error::BindFailure { port: self.port }
    }
}

} // verus!
