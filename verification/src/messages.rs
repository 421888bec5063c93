//! The messages of the protocol.

pub mod common_fields;
pub mod discover;
pub mod download;
pub mod upload;
