//! A content-addressed document store: each document is kept under the
//! SHA-256 digest of its text, in an embedded ordered key-value tree.

pub mod codec;
pub mod db;
pub mod error;
pub mod hexid;
pub mod laws;
pub mod prompt;
pub mod tree;

pub use db::{Database, DocumentId, DocumentRecord, JsonError, Timestamp};
pub use error::StoreError;
