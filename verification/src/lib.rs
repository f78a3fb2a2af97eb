//! Clipboard sharing between peers on a private network: configuration
//! validation, request authentication, error reporting and the decisions
//! of the command-line workflows.
pub mod text;
pub mod error;
pub mod types;
pub mod devices;
pub mod config;
pub mod clipboard;
pub mod daemon;
pub mod transport;
pub mod cmd;
