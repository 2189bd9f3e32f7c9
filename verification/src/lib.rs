//! Layout decoder for packaged installable-title containers: a fixed
//! 32-byte little-endian header, alignment-padded section offsets, and a
//! signed license ("ticket") record whose shape branches on a leading
//! signature-algorithm tag.

pub mod bytes_util;
pub mod cia_header;
pub mod error;
pub mod ticket;

pub use crate::cia_header::CIAHeaderInfo;
pub use crate::error::CiaError;
pub use crate::ticket::SignatureAlgorithm;
pub use crate::ticket::Ticket;
