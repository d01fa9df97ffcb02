//! What the MCP endpoint of the Jasper note server decides.

pub mod access;
pub mod args;
pub mod error;
pub mod guard;
pub mod info;
pub mod json;
pub mod laws;
pub mod request;
pub mod server;
pub mod status;
pub mod tool;
