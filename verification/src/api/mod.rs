//! Decisions of the HTTP endpoints: which requests are refused and how, and what the
//! answers say. The transport itself (routing, streaming, files) is outside the library.

pub mod access;
pub mod cors;
pub mod download;
pub mod errors;
pub mod listing;
pub mod types;
pub mod upload;
