//! Translates a structured key/value configuration tree into the line-oriented
//! command language of the sway compositor.
//!
//! The crate has three layers:
//! - `sway`: the command model (tagged command variants and their argument
//!   vocabularies) together with a canonical text renderer for each command;
//! - `tomlcfg`: a decoder that resolves a generic key/value tree into command
//!   instances, enforcing the "exactly one discriminant key" rule, and an
//!   assembler that lays a whole configuration file out section by section;
//! - `text`: small verified helpers for building and splitting strings.
//!
//! Decoding and rendering are pure: every function's effect is captured by its
//! contract, stated over spec-level views of the data types.
pub mod sway;
pub mod text;
pub mod tomlcfg;
