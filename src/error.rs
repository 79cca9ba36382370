use vstd::prelude::*;

verus! {

/// The confirmation stage of the handshake at which a wrong reply came.
#[derive(Debug, Clone, Copy, PartialEq, Eq, Structural)]
pub enum HandshakeStage {
    Confirm1,
    Confirm2,
    Confirm3,
}

/// Errors of the transport layer.
#[derive(Debug, Clone, PartialEq, Eq)]
pub enum Error {
    /// An operation was attempted on a port that is not open.
    ConnectionNotOpen,
    /// The underlying transport failed; the text is passed on as it came.
    Io(String),
    /// The vendor/product id pair is absent from the registry.
    UnknownDeviceType,
    /// A confirmation stage of the handshake received an unexpected byte.
    HandshakeFailed(HandshakeStage),
    /// No partition of the requested name exists.
    PartitionNotFound,
}

} // verus!
