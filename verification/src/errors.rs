use vstd::prelude::*;

verus! {

/// Failure while resolving the identity that secures the transport.
/// Every variant is fatal at startup: the tool cannot run without an identity.
#[derive(Clone, Copy, Debug, PartialEq, Eq, Structural)]
pub enum IdentityError {
    /// Reading or persisting identity material failed, or the backend could
    /// not produce a fresh identity.
    IoError,
    /// Identity material was present but could not be parsed.
    ParseError,
    /// A PEM key file held neither a PKCS#8 nor an RSA private key.
    NoKeyFound,
}

/// Failure while establishing or offering the transport connection.
#[derive(Clone, Copy, Debug, PartialEq, Eq, Structural)]
pub enum TransportError {
    /// The listening socket could not be bound.
    BindFailure,
    /// The secure handshake with the peer failed.
    HandshakeFailure,
    /// A hostname could not be resolved.
    ResolutionFailure,
    /// Resolution succeeded but produced no usable address.
    NoAddressFound,
}

/// Failure inside one channel's request/response exchange. It ends that
/// channel's handler only; the connection itself continues.
#[derive(Clone, Copy, Debug, PartialEq, Eq, Structural)]
pub enum ProtocolError {
    /// The channel closed before a complete length prefix or payload arrived.
    Truncated,
    /// A request payload was not well-formed UTF-8.
    InvalidEncoding,
}

/// Failure of a pluggable channel or datagram handler.
#[derive(Clone, Copy, Debug, PartialEq, Eq, Structural)]
pub enum HandlerError {
    /// The handler is an extension point with no behaviour yet; it must fail
    /// explicitly rather than drop data.
    NotImplemented,
}

} // verus!
