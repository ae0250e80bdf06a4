//! Verified core of an MCP server for AdGuard Home: the request plans sent to
//! AdGuard Home instances, the synchronisation of a master instance to its
//! replicas, the tool registry and the decisions of the MCP dispatcher.
pub mod adguard;
pub mod config;
pub mod error;
pub mod mcp;
pub mod text;
pub mod server;
pub mod settings;
pub mod sync;
pub mod tools;
