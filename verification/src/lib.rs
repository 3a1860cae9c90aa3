//! A compact byte-sequence value that is either a borrowed view into memory
//! owned by another party or a heap buffer of its own, with content-based
//! equality, ordering and hashing.

pub mod bytes;
pub mod order;

pub use bytes::Bytes;
pub use bytes::SetBytesError;
