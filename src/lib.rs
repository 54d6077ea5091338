//! Integrity checking for ATMA containers: a 256-byte little-endian header
//! followed by a payload whose SHA-512 digest the header records.

pub mod digest;
pub mod error;
pub mod header;
pub mod layout;
pub mod verify;
pub mod laws;
