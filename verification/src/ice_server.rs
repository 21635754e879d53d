//! The request-serving shell's handle.

use std::sync::Arc;
use vstd::prelude::*;

verus! {

/// State shared by the server and the services it hands out.
pub struct Context {}

/// A server whose services share one context.
pub struct IceServer {
    context: Arc<Context>,
}

impl IceServer {
    /// The context that every service of this server shares.
    pub closed spec fn shared(&self) -> Context {
        *self.context
    }

    /// A server with a fresh, empty context.
    pub fn new() -> (server: IceServer)
        ensures
            server.shared() == (Context {}),
    {
        IceServer { context: Arc::new(Context {}) }
    }

    /// A second owner of the server's context, for one service.
    pub fn context(&self) -> (ctx: Arc<Context>)
        ensures
            *ctx == self.shared(),
    {
        self.context.clone()
    }
}

} // verus!
