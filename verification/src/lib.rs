//! Core of a mapper that bridges a local MQTT device bus with a cloud IoT
//! platform speaking the SmartREST line protocol.
//!
//! Everything that decides something is in this crate and verified: the topic
//! grammar, the SmartREST codec, the JSON payload codec, the entity store, and
//! the operation state machines for configuration snapshots and updates.  The
//! functions here are pure over their inputs: instead of performing I/O they
//! return [`converter::Effect`] values (MQTT publishes, download requests,
//! symlink and marker-file operations) for an unverified shell to execute.

pub mod actor;
pub mod converter;
pub mod entity;
pub mod error;
pub mod ids;
pub mod json;
pub mod laws;
pub mod payloads;
pub mod smartrest;
pub mod table;
pub mod text;
pub mod topics;

pub use text::sanitize_type_tag;
