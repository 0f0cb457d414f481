//! A dual-mode relay for the MEV family of Ethereum JSON-RPC methods.
//!
//! The library holds the verified core: the closed method enumeration with
//! its wire-name bijection, the registry that routes decoded requests to
//! typed handlers, the handler set itself, the client-side request encoder
//! and response decoder, and the resolution of the operating mode. JSON
//! parsing and the payload schemas are reached through the trusted boundary
//! in `json`; transport, flag parsing and process glue live outside the
//! library.

pub mod client;
pub mod config;
pub mod envelope;
pub mod handlers;
pub mod json;
pub mod method;
pub mod registry;
pub mod strutil;
