//! Content-addressable identifiers for tensor objects.
//!
//! An [`oid::ObjectId`] names a buffer of bytes by its digest. The identifier
//! can be rendered as lowercase hexadecimal, appended to a byte buffer in that
//! form, read back as raw bytes, and split into the two parts of a sharded
//! storage key.
pub mod digest;
pub mod hex;
pub mod oid;
