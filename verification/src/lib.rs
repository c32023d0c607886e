//! Client-side engine for the UPnP Internet Gateway Device control protocol.
//!
//! The crate renders SOAP action envelopes, interprets XML responses as
//! either a success element or a structured UPnP fault, classifies faults
//! into per-action error sets, and runs the any-port allocation state
//! machine. Sending an envelope over HTTP is the caller's job: every
//! function here is a pure transform from request parameters and response
//! text to a typed outcome.

pub mod actions;
pub mod addr;
pub mod allocator;
pub mod envelope;
pub mod errors;
pub mod escape;
pub mod gateway;
pub mod protocol;
pub mod response;
pub mod rng;
pub mod strings;
pub mod xml;

pub use addr::{Ipv4Addr, SocketAddrV4};
pub use allocator::{AllocPhase, AllocStep, AnyPortAllocator};
pub use envelope::{MappingRequest, SoapRequest};
pub use errors::{AddAnyPortError, AddPortError, GetExternalIpError, RemovePortError, RequestError};
pub use gateway::Gateway;
pub use protocol::PortMappingProtocol;
pub use response::TransportEvent;
