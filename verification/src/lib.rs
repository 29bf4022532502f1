//! Verified core of the Prosody Ruby extension: the decisions and
//! translations that the native layer makes between Ruby and the Prosody
//! event-processing runtime.

pub mod bridge;
pub mod client;
pub mod config;
pub mod errors;
pub mod handler;
pub mod keyed_state;
pub mod logging;
pub mod processor;
pub mod query;
pub mod result;
pub mod ruby_bridge;
pub mod scan;
pub mod scheduler;
pub mod state;
pub mod text;
pub mod time;
