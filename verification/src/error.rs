//! Errors produced while encoding and decoding TWS API frames.
use vstd::prelude::*;

use crate::text::IntErrorKind;

verus! {

/// Errors produced while encoding or decoding TWS API frames.
#[derive(Debug, Clone, PartialEq, Eq)]
pub enum TwsApiError {
    /// A caller attempted to encode a value containing non-printable ASCII.
    NonPrintableAscii(String),
    /// A caller attempted to send a missing field value.
    MissingField,
    /// A frame length prefix exceeded the supported platform size.
    FrameTooLarge(u32),
    /// A message was incomplete.
    IncompleteFrame {
        /// Number of bytes needed to finish the frame.
        needed: usize,
        /// Number of bytes currently available.
        available: usize,
    },
    /// The peer returned a malformed handshake response.
    MalformedHandshake,
    /// The peer advertised an unsupported server version.
    UnsupportedServerVersion {
        /// Advertised server version.
        server_version: i32,
        /// Required minimum version.
        min_version: i32,
    },
    /// A request used a field that the negotiated server version does not support.
    UnsupportedRequestParameter {
        /// Advertised server version.
        server_version: i32,
        /// Required minimum version.
        min_version: i32,
        /// Unsupported parameter name.
        parameter: &'static str,
    },
    /// An integer field could not be parsed.
    InvalidInteger {
        /// Field content.
        field: String,
        /// Why it could not be parsed.
        kind: IntErrorKind,
    },
    /// A decimal field could not be parsed.
    InvalidDecimal {
        /// Field content.
        field: String,
    },
}

} // verus!
