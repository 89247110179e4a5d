//! Core of an append-only message board: validation and construction of an
//! immutable, author-attributed, timestamped record with two bounded text
//! fields, together with the fixed storage budget that every such record is
//! guaranteed to fit.
//!
//! The surrounding ledger runtime supplies the caller's identity and the
//! current time and persists the record; this crate only decides whether a
//! request is acceptable, builds the record, and states how many bytes a
//! storage slot must reserve for it.

pub mod error;
pub mod layout;
pub mod tweet;

pub use error::ErrorCode;
pub use layout::required_storage_size;
pub use tweet::send_tweet;
pub use tweet::Tweet;
pub use tweet::TweetView;
