//! Hot-corner zone service core: the four corner actions and the detection
//! flag, their persistence plan against a string-keyed configuration backend,
//! and the method table that routes decoded call frames to them.

pub mod config;
pub mod rpc;
pub mod runtime;
pub mod state;
mod text;
