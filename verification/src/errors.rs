//! The closed error sets of the protocol engine: one shared request-level
//! taxonomy, and one named outcome set per action.

use vstd::prelude::*;

verus! {

/// A failed protocol exchange, before any action-specific reading.
#[derive(Debug, Clone, PartialEq, Eq)]
pub enum RequestError {
    /// The HTTP exchange itself failed; the text describes the failure.
    TransportError(String),
    /// The response was not a recognizable success or fault document;
    /// the original response text is kept for diagnosis.
    InvalidResponse(String),
    /// The router rejected the action with a UPnP fault: numeric code
    /// and human-readable description.
    ErrorCode(u16, String),
}

/// Errors that can occur when reading the external IP address.
#[derive(Debug, Clone, PartialEq, Eq)]
pub enum GetExternalIpError {
    /// The router refuses to tell us (fault 606).
    ActionNotAuthorized,
    /// Any other failed exchange.
    RequestError(RequestError),
}

/// Errors that can occur when adding a mapping on a caller-chosen port.
#[derive(Debug, Clone, PartialEq, Eq)]
pub enum AddPortError {
    /// An external port of 0 is a local contract violation.
    ExternalPortZeroInvalid,
    /// An internal port of 0 is a local contract violation.
    InternalPortZeroInvalid,
    /// The router rejected the description's length (fault 605).
    DescriptionTooLong,
    /// The router refuses the mapping (fault 606).
    ActionNotAuthorized,
    /// The requested external port is already mapped (fault 718).
    PortInUse,
    /// The router requires internal and external ports to match (fault 724).
    SamePortValuesRequired,
    /// The router only supports permanent leases (fault 725).
    OnlyPermanentLeasesSupported,
    /// Any other failed exchange.
    RequestError(RequestError),
}

/// Errors that can occur when asking for a mapping on any free port.
#[derive(Debug, Clone, PartialEq, Eq)]
pub enum AddAnyPortError {
    /// An internal port of 0 is a local contract violation.
    InternalPortZeroInvalid,
    /// The router refuses the mapping (fault 606).
    ActionNotAuthorized,
    /// The router rejected the description's length (fault 605).
    DescriptionTooLong,
    /// No external port could be allocated (fault 728, or every
    /// candidate was already taken).
    NoPortsAvailable,
    /// The router demands the internal port as the external port, and
    /// that port is already mapped.
    ExternalPortInUse,
    /// The router only supports permanent leases (fault 725).
    OnlyPermanentLeasesSupported,
    /// Any other failed exchange.
    RequestError(RequestError),
}

/// Errors that can occur when removing a mapping.
#[derive(Debug, Clone, PartialEq, Eq)]
pub enum RemovePortError {
    /// The router refuses the removal (fault 606).
    ActionNotAuthorized,
    /// There is no mapping on that port and protocol (fault 714).
    NoSuchPortMapping,
    /// Any other failed exchange.
    RequestError(RequestError),
}

} // verus!
