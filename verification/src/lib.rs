//! Bridges a tool provider's loosely-typed JSON-Schema input descriptions to
//! the strongly-typed block signatures a dataflow runtime wires into a graph.
//!
//! The core is the signature inference engine in [`schema`]: it reads a tool
//! description and deterministically produces a block signature (named input
//! ports with inferred semantic types, one untyped output port, and an effect
//! tag identifying the invoking side-channel). [`adapter`] is the capability
//! interface over tool backends, [`error`] the error taxonomy, [`discovery`]
//! and [`client`] thin plumbing around them.

pub mod adapter;
pub mod client;
pub mod discovery;
pub mod error;
pub mod schema;

pub use adapter::{BasicMCPAdapter, MCPAdapter};
pub use discovery::{list_servers, MCPConfig, MCPServer};
pub use error::MCPError;
pub use schema::{infer_block_signature, BlockSignature, PortSignature, SemanticType};
