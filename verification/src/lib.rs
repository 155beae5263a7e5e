//! A GATT object-protocol engine for a message-bus Bluetooth stack.
//!
//! The crate models the in-process object tree that mirrors a bus-exposed
//! GATT hierarchy (services, characteristics, descriptors, remote devices),
//! the per-characteristic request/response state machine, the generic
//! property reflection protocol, and the request-correlation handles.
//! Message bodies are modelled as a typed value tree; marshalling them to a
//! concrete wire format is the transport's concern, not this crate's.

use vstd::prelude::*;

pub mod advertisement;
pub mod characteristic;
pub mod device;
pub mod flags;
pub mod introspect;
pub mod pending;
pub mod remote;
pub mod path;
mod sock;
pub mod service;
pub mod strmap;
mod strutil;
pub mod value;
pub mod wire;

verus! {

/// Errors surfaced to local callers (bus peers get named error replies
/// instead; see `wire::Reply`).
#[derive(Debug)]
pub enum Error {
    /// A bus request returned something malformed or an error reply;
    /// the payload describes what.
    DbusReqErr(String),
    /// A locally supplied value was rejected; the payload is the offending
    /// input.
    BadInput(String),
    /// The operation is not offered by this implementation.
    Unsupported,
    /// A socket operation failed.
    Io,
}

} // verus!
