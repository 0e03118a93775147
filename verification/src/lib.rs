//! Idempotent provisioning of tagged sandboxes: configuration, request payloads
//! and the interpretation of the provisioning service's replies.

pub mod config;
pub mod env_map;
pub mod error;
pub mod json;
pub mod payload;
pub mod reply;
pub mod text;
pub mod transport;
pub mod tsbx;
