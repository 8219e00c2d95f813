//! Resolving a batch of loosely typed identifiers to the records stored under them.

pub mod uuid_text;
pub mod id;
pub mod record;
pub mod request;
pub mod error;
pub mod lookup;
pub mod types;
pub mod compat;
