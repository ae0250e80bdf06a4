//! The MCP server: what each request is answered, and who may send one over
//! HTTP.
pub mod http;
pub mod mcp;
