//! Thin TWS/Gateway protocol library: frame and field encoding, message identifiers, wire enums,
//! request encoders, the decoders of incoming messages and the decisions of a client session.
use vstd::prelude::*;

pub mod client;
pub mod comm;
pub mod constants;
pub mod contract_requests;
pub mod decoder;
pub mod enums;
pub mod error;
pub mod events;
pub mod message;
pub mod num;
pub mod requests;
pub mod server_versions;
pub mod text;
pub mod types;

verus! {
}
