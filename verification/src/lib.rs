//! Attach local files to pages of a remote block-structured document service
//! and fetch them back, by driving the service's block-mutation transaction
//! protocol and its signed-URL transfer pipeline.
//!
//! The protocol logic lives here and is verified: identifier normalization,
//! human-readable size rendering, the wire request types, the transaction
//! builders, and the upload and download workflow state machines. The
//! surrounding I/O (HTTP, file system, database, CLI) is ordinary Rust that
//! drives these components.

pub mod client;
pub mod config;
pub mod download;
pub mod error;
pub mod ident;
mod outside;
pub mod put;
pub mod size;
pub mod store;
pub mod txn;
pub mod types;

pub use error::ApiError;
pub use ident::to_dashed_id;
