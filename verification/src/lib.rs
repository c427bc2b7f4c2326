//! Session and upload core of a client for the Backblaze B2 object-storage API.
//!
//! The crate holds the decisions of the client as verified functions on plain
//! values: cached authorization, per-bucket upload leases with a fixed validity
//! window, the construction of upload requests with their content hash, the
//! mapping of responses to file records, and the classification of failures.
//! Network traffic itself is left to the caller.

pub mod account;
pub mod bucket;
pub mod client;
pub mod error;
pub mod file;
pub mod hash;
pub mod interleave;
pub mod upload;

pub use bucket::Bucket;
pub use client::Client;
pub use error::{Error, ErrorKind};
pub use file::File;
