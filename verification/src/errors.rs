//! The failure taxonomy of the protocol and resolver layers. Every failure is
//! fatal to the current invocation; callers surface it and stop.

use vstd::prelude::*;

verus! {

/// Everything that can go wrong between sending a request and acting on the
/// reply, plus the two listing-invariant violations the resolver defends
/// against.
#[derive(Clone, Copy, Debug, PartialEq, Eq, Structural)]
pub enum IpcError {
    /// The first six header bytes were not the magic marker.
    ProtocolMismatch,
    /// The stream closed before a full header or payload arrived.
    ShortRead,
    /// The payload bytes were not valid UTF-8.
    EncodingError,
    /// The payload was not JSON of the expected shape.
    SchemaError,
    /// The command reply's first envelope entry did not report success.
    CommandFailed,
    /// No entry of the listing was focused.
    NoFocusedEntity,
    /// The adjacent output shows no visible workspace.
    NoVisibleWorkspace,
}

} // verus!
