use vstd::prelude::*;

use crate::types::{DataType, ErrorEntry};

verus! {

/// Why no transport channel was used.
#[derive(Clone, Copy, Debug, PartialEq, Eq, Structural)]
pub enum ConnectionFault {
    /// An operation was attempted before `connect`.
    NotConnected,
    /// The channel could not be established.
    Unreachable,
}

/// A failure of the remote call itself, as the transport reported it.
#[derive(Clone, Debug, PartialEq, Eq)]
pub struct TransportStatus {
    pub code: i32,
    pub message: String,
}

/// Every way an operation of this library fails.
#[derive(Clone, Debug, PartialEq, Eq)]
pub enum ClientError {
    /// No transport channel could be used.
    Connection(ConnectionFault),
    /// The remote call failed at the protocol level.
    Status(TransportStatus),
    /// The store processed the call and reported these errors.
    Function(Vec<ErrorEntry>),
    /// Text could not be read as the given data type.
    Parse(DataType),
    /// Values of the given data type cannot be converted from text.
    UnsupportedType(DataType),
    /// The store reported a type or kind code that this library does not know.
    MetadataDecode,
    /// The store returned no metadata for the path.
    MetadataNotFound,
    /// A read of one path returned no entry, or more than one.
    NotALeaf,
    /// A target-value operation was attempted on a path that is not an actuator.
    NotAnActuator,
}

} // verus!
