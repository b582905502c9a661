//! Validation of RPC identifiers and the decisions of the core plugin.

pub mod matcher;
pub mod error;
pub mod rpc_id;
pub mod plugin_core;

pub use error::Error;
