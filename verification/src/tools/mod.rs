//! Tools that the agent can call.

pub mod composed;
pub mod create_tool;
pub mod mcp;
pub mod output;
pub mod schema;
pub mod stored;
pub mod template;
