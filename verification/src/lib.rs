//! An authentication gateway library: it resolves a layered configuration,
//! verifies credentials against a directory server, and manages the
//! lifecycle of opaque bearer tokens kept in an external key-value store.
//!
//! The modules are layered bottom-up: `config` resolves the process
//! configuration, `token` renders and parses the 128-bit token
//! identifiers, `ldap` classifies directory bind outcomes, `store`
//! decides the token operations, and `pipeline` wires the per-request
//! stages together and maps errors to transport statuses.

pub mod config;
pub mod error;
pub mod ldap;
pub mod pipeline;
pub mod store;
pub mod text;
pub mod token;
