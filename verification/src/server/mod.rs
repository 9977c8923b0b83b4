//! MCP server logic: error taxonomy, tool schemas, normalization of analyzer results, and the
//! decisions of the server's runtime state.

pub mod error;
pub mod schema;
pub mod normalize;
pub mod state;
