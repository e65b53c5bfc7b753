use vstd::prelude::*;

use crate::error::MCPError;

verus! {

/// A client for a remote tool provider. The transport itself is a future
/// backend concern; this client stands in for it and reports no tools, so
/// every operation is total and returns the neutral answer.
pub struct MCPClient {}

impl MCPClient {
    /// A client with no connection.
    pub fn new() -> (r: Self)
        ensures
            r == (MCPClient {  }),
    {
        MCPClient {  }
    }

    /// Establishes the connection to the provider. The stand-in has nothing
    /// to connect to and always succeeds.
    pub fn connect(&mut self) -> (r: Result<(), MCPError>)
        ensures
            r matches Ok(()),
    {
        Ok(())
    }

    /// Lists the tool names the provider offers: none, for the stand-in.
    pub fn list_tools(&self) -> (r: Result<Vec<String>, MCPError>)
        ensures
            r matches Ok(names) && names@.len() == 0,
    {
        Ok(Vec::new())
    }
}

impl Default for MCPClient {
    /// The same client as [`MCPClient::new`].
    fn default() -> (r: Self)
        ensures
            r == (MCPClient {  }),
    {
        MCPClient::new()
    }
}

} // verus!
