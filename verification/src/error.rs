use vstd::prelude::*;
use vstd::string::StringExecFns;

verus! {

/// The error taxonomy of the inference core and its adapters.
///
/// `ToolNotFound` carries the name of a tool that was requested but is not in
/// the adapter's registry; it is propagated to the caller, never recovered
/// silently. `SchemaInference` is reserved for a stricter validation mode:
/// under the lenient policy implemented here every malformed or incomplete
/// schema fragment degrades to the `Any` fallback, so nothing in this crate
/// produces it. `Server` carries a backend-reported failure message from a
/// concrete adapter implementation.
#[derive(Debug)]
pub enum MCPError {
    /// A backend reported a failure while talking to its tool provider.
    Server(String),
    /// The requested tool is not among the adapter's known tools.
    ToolNotFound(String),
    /// Reserved for a future stricter validation mode; never raised here.
    SchemaInference(String),
}

/// The human-readable message of an error: a fixed heading for the variant,
/// followed by what the variant carries.
pub open spec fn message_of(e: MCPError) -> Seq<char> {
    match e {
        MCPError::Server(m) => "MCP server error: "@ + m@,
        MCPError::ToolNotFound(n) => "Tool not found: "@ + n@,
        MCPError::SchemaInference(m) => "Schema inference error: "@ + m@,
    }
}

impl MCPError {
    /// Renders this error's message.
    pub fn message(&self) -> (r: String)
        ensures
            r@ == message_of(*self),
    {
        match self {
            MCPError::Server(m) => {
                let mut r = "MCP server error: ".to_owned();
                r.append(m.as_str());
                r
            },
            MCPError::ToolNotFound(n) => {
                let mut r = "Tool not found: ".to_owned();
                r.append(n.as_str());
                r
            },
            MCPError::SchemaInference(m) => {
                let mut r = "Schema inference error: ".to_owned();
                r.append(m.as_str());
                r
            },
        }
    }
}

} // verus!
