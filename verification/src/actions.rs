//! The action layer: for each supported UPnP action, the request to send
//! and the exact reading of what came back, with the generic fault code
//! classified into that action's closed error set.

use vstd::prelude::*;
use crate::addr::{parse_ipv4, parse_ipv4_spec, Ipv4Addr};
use crate::envelope::{
    add_port_mapping_request, header_str, mapping_body, MappingRequest, SoapRequest,
};
use crate::errors::{AddAnyPortError, AddPortError, GetExternalIpError, RemovePortError,
    RequestError};
use crate::response::{event_result, handle_event, TransportEvent};
use crate::xml::{find_child, find_child_index, XmlNode};

verus! {

/// The address reading of a `GetExternalIPAddressResponse` element: the
/// `NewExternalIPAddress` child must carry a dotted-quad text.
pub open spec fn external_ip_of(text: String, node: XmlNode) -> Result<
    Ipv4Addr,
    GetExternalIpError,
> {
    match find_child(node.children@, "NewExternalIPAddress"@) {
        Some(c) => match c.text {
            Some(t) => match parse_ipv4_spec(t@) {
                Some(ip) => Ok(ip),
                None => Err(
                    GetExternalIpError::RequestError(RequestError::InvalidResponse(text)),
                ),
            },
            None => Err(GetExternalIpError::RequestError(RequestError::InvalidResponse(text))),
        },
        None => Err(GetExternalIpError::RequestError(RequestError::InvalidResponse(text))),
    }
}

/// What `get_external_ip` returns for each transport outcome: the parsed
/// address on success, `ActionNotAuthorized` on fault 606, everything
/// else passed through unchanged.
pub open spec fn get_external_ip_result(ev: TransportEvent) -> Result<
    Ipv4Addr,
    GetExternalIpError,
> {
    match event_result(ev, "GetExternalIPAddressResponse"@) {
        Ok((text, node)) => external_ip_of(text, node),
        Err(e) => match e {
            RequestError::ErrorCode(code, d) => if code == 606 {
                Err(GetExternalIpError::ActionNotAuthorized)
            } else {
                Err(GetExternalIpError::RequestError(RequestError::ErrorCode(code, d)))
            },
            _ => Err(GetExternalIpError::RequestError(e)),
        },
    }
}

/// Reads the external IP address out of one transport outcome.
pub fn get_external_ip(ev: TransportEvent) -> (r: Result<Ipv4Addr, GetExternalIpError>)
    ensures
        r == get_external_ip_result(ev),
{
    match handle_event(ev, "GetExternalIPAddressResponse") {
        Ok((text, node)) => {
            let mut node = node;
            match find_child_index(&node.children, "NewExternalIPAddress") {
                Some(i) => {
                    let c = node.children.remove(i);
                    match c.text {
                        Some(t) => match parse_ipv4(t.as_str()) {
                            Some(ip) => Ok(ip),
                            None => Err(
                                GetExternalIpError::RequestError(
                                    RequestError::InvalidResponse(text),
                                ),
                            ),
                        },
                        None => Err(
                            GetExternalIpError::RequestError(RequestError::InvalidResponse(text)),
                        ),
                    }
                },
                None => Err(
                    GetExternalIpError::RequestError(RequestError::InvalidResponse(text)),
                ),
            }
        },
        Err(e) => match e {
            RequestError::ErrorCode(code, d) => {
                if code == 606 {
                    Err(GetExternalIpError::ActionNotAuthorized)
                } else {
                    Err(GetExternalIpError::RequestError(RequestError::ErrorCode(code, d)))
                }
            },
            e => Err(GetExternalIpError::RequestError(e)),
        },
    }
}

/// The fixed-port mapping's reading of a failed exchange.
pub open spec fn add_port_outcome(e: RequestError) -> AddPortError {
    match e {
        RequestError::ErrorCode(code, d) => if code == 605 {
            AddPortError::DescriptionTooLong
        } else if code == 606 {
            AddPortError::ActionNotAuthorized
        } else if code == 718 {
            AddPortError::PortInUse
        } else if code == 724 {
            AddPortError::SamePortValuesRequired
        } else if code == 725 {
            AddPortError::OnlyPermanentLeasesSupported
        } else {
            AddPortError::RequestError(RequestError::ErrorCode(code, d))
        },
        _ => AddPortError::RequestError(e),
    }
}

/// What `add_port_response` returns for each transport outcome.
pub open spec fn add_port_response_spec(ev: TransportEvent) -> Result<(), AddPortError> {
    match event_result(ev, "AddPortMappingResponse"@) {
        Ok(_) => Ok(()),
        Err(e) => Err(add_port_outcome(e)),
    }
}

/// Validates a fixed-port mapping request and renders its envelope.
/// Zero ports are rejected locally: no request to send exists then.
pub fn add_port(req: &MappingRequest, external_port: u16) -> (r: Result<SoapRequest, AddPortError>)
    ensures
        external_port == 0 ==> r == Err::<SoapRequest, AddPortError>(
            AddPortError::ExternalPortZeroInvalid,
        ),
        external_port != 0 && req.local_addr.port == 0 ==> r == Err::<SoapRequest, AddPortError>(
            AddPortError::InternalPortZeroInvalid,
        ),
        external_port != 0 && req.local_addr.port != 0 ==> (r matches Ok(rq)
            && rq.header@ == header_str("AddPortMapping"@) && rq.body@ == mapping_body(
            "AddPortMapping"@,
            req.protocol,
            external_port,
            req.local_addr,
            req.lease_duration,
            req.description@,
        )),
{
    if external_port == 0 {
        return Err(AddPortError::ExternalPortZeroInvalid);
    }
    if req.local_addr.port() == 0 {
        return Err(AddPortError::InternalPortZeroInvalid);
    }
    Ok(add_port_mapping_request(req, external_port))
}

/// Classifies the transport outcome of a fixed-port mapping request.
pub fn add_port_response(ev: TransportEvent) -> (r: Result<(), AddPortError>)
    ensures
        r == add_port_response_spec(ev),
{
    match handle_event(ev, "AddPortMappingResponse") {
        Ok(_) => Ok(()),
        Err(e) => match e {
            RequestError::ErrorCode(code, d) => {
                if code == 605 {
                    Err(AddPortError::DescriptionTooLong)
                } else if code == 606 {
                    Err(AddPortError::ActionNotAuthorized)
                } else if code == 718 {
                    Err(AddPortError::PortInUse)
                } else if code == 724 {
                    Err(AddPortError::SamePortValuesRequired)
                } else if code == 725 {
                    Err(AddPortError::OnlyPermanentLeasesSupported)
                } else {
                    Err(AddPortError::RequestError(RequestError::ErrorCode(code, d)))
                }
            },
            e => Err(AddPortError::RequestError(e)),
        },
    }
}

/// What `remove_port` returns for each transport outcome: success on any
/// parsed success element, `ActionNotAuthorized` on 606,
/// `NoSuchPortMapping` on 714, everything else passed through.
pub open spec fn remove_port_result(ev: TransportEvent) -> Result<(), RemovePortError> {
    match event_result(ev, "DeletePortMappingResponse"@) {
        Ok(_) => Ok(()),
        Err(e) => match e {
            RequestError::ErrorCode(code, d) => if code == 606 {
                Err(RemovePortError::ActionNotAuthorized)
            } else if code == 714 {
                Err(RemovePortError::NoSuchPortMapping)
            } else {
                Err(RemovePortError::RequestError(RequestError::ErrorCode(code, d)))
            },
            _ => Err(RemovePortError::RequestError(e)),
        },
    }
}

/// Classifies the transport outcome of a mapping removal.
pub fn remove_port(ev: TransportEvent) -> (r: Result<(), RemovePortError>)
    ensures
        r == remove_port_result(ev),
{
    match handle_event(ev, "DeletePortMappingResponse") {
        Ok(_) => Ok(()),
        Err(e) => match e {
            RequestError::ErrorCode(code, d) => {
                if code == 606 {
                    Err(RemovePortError::ActionNotAuthorized)
                } else if code == 714 {
                    Err(RemovePortError::NoSuchPortMapping)
                } else {
                    Err(RemovePortError::RequestError(RequestError::ErrorCode(code, d)))
                }
            },
            e => Err(RemovePortError::RequestError(e)),
        },
    }
}

/// Carries the external-IP step's outcome into a combined
/// address-and-port request: its authorization failure keeps its name,
/// other failures pass through.
pub fn get_any_address_ip_step(r0: Result<Ipv4Addr, GetExternalIpError>) -> (r: Result<
    Ipv4Addr,
    AddAnyPortError,
>)
    ensures
        r == match r0 {
            Ok(ip) => Ok::<Ipv4Addr, AddAnyPortError>(ip),
            Err(GetExternalIpError::ActionNotAuthorized) => Err(
                AddAnyPortError::ActionNotAuthorized,
            ),
            Err(GetExternalIpError::RequestError(e)) => Err(AddAnyPortError::RequestError(e)),
        },
{
    match r0 {
        Ok(ip) => Ok(ip),
        Err(GetExternalIpError::ActionNotAuthorized) => Err(AddAnyPortError::ActionNotAuthorized),
        Err(GetExternalIpError::RequestError(e)) => Err(AddAnyPortError::RequestError(e)),
    }
}

/// One fault code names the matching action-specific outcome at every
/// call site: a 606 fault reads as that action's `ActionNotAuthorized`,
/// whichever action was asked.
pub proof fn lemma_fault_606_names_action(
    ev_ip: TransportEvent,
    ev_add: TransportEvent,
    ev_remove: TransportEvent,
)
    requires
        event_result(ev_ip, "GetExternalIPAddressResponse"@) matches Err(
            RequestError::ErrorCode(code1, _),
        ) && code1 == 606,
        event_result(ev_add, "AddPortMappingResponse"@) matches Err(
            RequestError::ErrorCode(code2, _),
        ) && code2 == 606,
        event_result(ev_remove, "DeletePortMappingResponse"@) matches Err(
            RequestError::ErrorCode(code3, _),
        ) && code3 == 606,
    ensures
        get_external_ip_result(ev_ip) == Err::<Ipv4Addr, GetExternalIpError>(
            GetExternalIpError::ActionNotAuthorized,
        ),
        add_port_response_spec(ev_add) == Err::<(), AddPortError>(
            AddPortError::ActionNotAuthorized,
        ),
        remove_port_result(ev_remove) == Err::<(), RemovePortError>(
            RemovePortError::ActionNotAuthorized,
        ),
{
}

} // verus!
