//! The sway command model: value domains, the command variants themselves,
//! and the canonical text rendering of each.
pub mod bind;
pub mod client;
pub mod commands;
pub mod config;
pub mod criteria;
pub mod exec;
pub mod focus;
pub mod layout;
pub mod mov;
pub mod options;
pub mod resize;
pub mod runtime;
