//! The envelope builder: renders a named UPnP action and its parameters
//! into the SOAP request body and the matching SOAP-Action header. Pure
//! text construction; free-text parameters are escaped, never rejected.

use vstd::prelude::*;
use crate::addr::{ipv4_str, push_ipv4, SocketAddrV4};
use crate::escape::{escape_seq, push_escaped};
use crate::protocol::{protocol_label, PortMappingProtocol};
use crate::strings::{dec_str, push_dec_u32};

verus! {

/// One ready-to-send SOAP request: the quoted SOAP-Action header value
/// and the XML body.
pub struct SoapRequest {
    pub header: String,
    pub body: String,
}

/// The parameters of one port mapping, as the caller states them.
pub struct MappingRequest {
    /// Protocol the mapping forwards.
    pub protocol: PortMappingProtocol,
    /// Address and port the traffic is sent to.
    pub local_addr: SocketAddrV4,
    /// Lease duration in seconds; 0 means an indefinite lease.
    pub lease_duration: u32,
    /// Free-text description; routers may reject over-long ones.
    pub description: String,
}

/// The SOAP-Action header value for an action: the service namespace,
/// a `#`, the action name, all inside literal double quotes.
pub open spec fn header_str(action: Seq<char>) -> Seq<char> {
    "\"urn:schemas-upnp-org:service:WANIPConnection:1#"@ + action + "\""@
}

/// The body of the parameterless `GetExternalIPAddress` request.
pub open spec fn get_external_ip_body() -> Seq<char> {
    "<?xml version=\"1.0\"?>\n        <SOAP-ENV:Envelope SOAP-ENV:encodingStyle=\"http://schemas.xmlsoap.org/soap/encoding/\" xmlns:SOAP-ENV=\"http://schemas.xmlsoap.org/soap/envelope/\">\n            <SOAP-ENV:Body>\n                <m:GetExternalIPAddress xmlns:m=\"urn:schemas-upnp-org:service:WANIPConnection:1\">\n                </m:GetExternalIPAddress>\n            </SOAP-ENV:Body>\n        </SOAP-ENV:Envelope>"@
}

/// The body of a mapping action (`AddPortMapping` or `AddAnyPortMapping`):
/// the action element carries the parameters in schema order, with the
/// description escaped.
pub open spec fn mapping_body(
    action: Seq<char>,
    protocol: PortMappingProtocol,
    external_port: u16,
    local_addr: SocketAddrV4,
    lease_duration: u32,
    description: Seq<char>,
) -> Seq<char> {
    "<?xml version=\"1.0\"?>\n        <s:Envelope xmlns:s=\"http://schemas.xmlsoap.org/soap/envelope/\" s:encodingStyle=\"http://schemas.xmlsoap.org/soap/encoding/\">\n        <s:Body>\n            <u:"@
        + action
        + " xmlns:u=\"urn:schemas-upnp-org:service:WANIPConnection:1\">\n                "@
        + "<NewProtocol>"@ + protocol_label(protocol) + "</NewProtocol>"@
        + "\n                <NewExternalPort>"@ + dec_str(external_port as nat)
        + "</NewExternalPort>\n                <NewInternalClient>"@ + ipv4_str(local_addr.ip)
        + "</NewInternalClient>\n                <NewInternalPort>"@ + dec_str(
        local_addr.port as nat,
    )
        + "</NewInternalPort>\n                <NewLeaseDuration>"@ + dec_str(
        lease_duration as nat,
    )
        + "</NewLeaseDuration>\n                <NewPortMappingDescription>"@ + escape_seq(
        description,
    )
        + "</NewPortMappingDescription>\n                <NewEnabled>1</NewEnabled>\n                <NewRemoteHost></NewRemoteHost>\n            </u:"@
        + action
        + ">\n        </s:Body>\n        </s:Envelope>\n        "@
}

/// The body of a `DeletePortMapping` request: protocol and external port
/// name the mapping to remove.
pub open spec fn delete_body(protocol: PortMappingProtocol, external_port: u16) -> Seq<char> {
    "<?xml version=\"1.0\"?>\n        <s:Envelope xmlns:s=\"http://schemas.xmlsoap.org/soap/envelope/\" s:encodingStyle=\"http://schemas.xmlsoap.org/soap/encoding/\">\n        <s:Body>\n            <u:"@
        + "DeletePortMapping"@
        + " xmlns:u=\"urn:schemas-upnp-org:service:WANIPConnection:1\">\n                "@
        + "<NewProtocol>"@ + protocol_label(protocol) + "</NewProtocol>"@
        + "\n                <NewExternalPort>"@ + dec_str(external_port as nat)
        + "</NewExternalPort>\n                <NewRemoteHost></NewRemoteHost>\n            </u:"@
        + "DeletePortMapping"@
        + ">\n        </s:Body>\n        </s:Envelope>\n        "@
}

/// Builds the SOAP-Action header value for an action name.
pub fn soap_action_header(action: &str) -> (r: String)
    ensures
        r@ == header_str(action@),
{
    let mut h = String::from_str("\"urn:schemas-upnp-org:service:WANIPConnection:1#");
    h.append(action);
    h.append("\"");
    h
}

/// Builds the `GetExternalIPAddress` request.
pub fn get_external_ip_request() -> (r: SoapRequest)
    ensures
        r.header@ == header_str("GetExternalIPAddress"@),
        r.body@ == get_external_ip_body(),
{
    SoapRequest {
        header: soap_action_header("GetExternalIPAddress"),
        body: String::from_str(
            "<?xml version=\"1.0\"?>\n        <SOAP-ENV:Envelope SOAP-ENV:encodingStyle=\"http://schemas.xmlsoap.org/soap/encoding/\" xmlns:SOAP-ENV=\"http://schemas.xmlsoap.org/soap/envelope/\">\n            <SOAP-ENV:Body>\n                <m:GetExternalIPAddress xmlns:m=\"urn:schemas-upnp-org:service:WANIPConnection:1\">\n                </m:GetExternalIPAddress>\n            </SOAP-ENV:Body>\n        </SOAP-ENV:Envelope>",
        ),
    }
}

/// Builds the body of a mapping action.
fn build_mapping_body(
    action: &str,
    protocol: PortMappingProtocol,
    external_port: u16,
    local_addr: SocketAddrV4,
    lease_duration: u32,
    description: &str,
) -> (r: String)
    ensures
        r@ == mapping_body(
            action@,
            protocol,
            external_port,
            local_addr,
            lease_duration,
            description@,
        ),
{
    let mut b = String::from_str(
        "<?xml version=\"1.0\"?>\n        <s:Envelope xmlns:s=\"http://schemas.xmlsoap.org/soap/envelope/\" s:encodingStyle=\"http://schemas.xmlsoap.org/soap/encoding/\">\n        <s:Body>\n            <u:",
    );
    b.append(action);
    b.append(" xmlns:u=\"urn:schemas-upnp-org:service:WANIPConnection:1\">\n                ");
    b.append("<NewProtocol>");
    b.append(protocol.label());
    b.append("</NewProtocol>");
    b.append("\n                <NewExternalPort>");
    push_dec_u32(&mut b, external_port as u32);
    b.append("</NewExternalPort>\n                <NewInternalClient>");
    push_ipv4(&mut b, &local_addr.ip);
    b.append("</NewInternalClient>\n                <NewInternalPort>");
    push_dec_u32(&mut b, local_addr.port as u32);
    b.append("</NewInternalPort>\n                <NewLeaseDuration>");
    push_dec_u32(&mut b, lease_duration);
    b.append("</NewLeaseDuration>\n                <NewPortMappingDescription>");
    push_escaped(&mut b, description);
    b.append(
        "</NewPortMappingDescription>\n                <NewEnabled>1</NewEnabled>\n                <NewRemoteHost></NewRemoteHost>\n            </u:",
    );
    b.append(action);
    b.append(">\n        </s:Body>\n        </s:Envelope>\n        ");
    b
}

/// Builds the `AddPortMapping` request for one mapping on a fixed
/// external port.
pub fn add_port_mapping_request(req: &MappingRequest, external_port: u16) -> (r: SoapRequest)
    ensures
        r.header@ == header_str("AddPortMapping"@),
        r.body@ == mapping_body(
            "AddPortMapping"@,
            req.protocol,
            external_port,
            req.local_addr,
            req.lease_duration,
            req.description@,
        ),
{
    SoapRequest {
        header: soap_action_header("AddPortMapping"),
        body: build_mapping_body(
            "AddPortMapping",
            req.protocol,
            external_port,
            req.local_addr,
            req.lease_duration,
            req.description.as_str(),
        ),
    }
}

/// Builds the `AddAnyPortMapping` request, hinting one candidate
/// external port.
pub fn add_any_port_mapping_request(req: &MappingRequest, external_port: u16) -> (r: SoapRequest)
    ensures
        r.header@ == header_str("AddAnyPortMapping"@),
        r.body@ == mapping_body(
            "AddAnyPortMapping"@,
            req.protocol,
            external_port,
            req.local_addr,
            req.lease_duration,
            req.description@,
        ),
{
    SoapRequest {
        header: soap_action_header("AddAnyPortMapping"),
        body: build_mapping_body(
            "AddAnyPortMapping",
            req.protocol,
            external_port,
            req.local_addr,
            req.lease_duration,
            req.description.as_str(),
        ),
    }
}

/// Builds the `DeletePortMapping` request.
pub fn delete_port_mapping_request(protocol: PortMappingProtocol, external_port: u16) -> (r:
    SoapRequest)
    ensures
        r.header@ == header_str("DeletePortMapping"@),
        r.body@ == delete_body(protocol, external_port),
{
    let mut b = String::from_str(
        "<?xml version=\"1.0\"?>\n        <s:Envelope xmlns:s=\"http://schemas.xmlsoap.org/soap/envelope/\" s:encodingStyle=\"http://schemas.xmlsoap.org/soap/encoding/\">\n        <s:Body>\n            <u:",
    );
    b.append("DeletePortMapping");
    b.append(" xmlns:u=\"urn:schemas-upnp-org:service:WANIPConnection:1\">\n                ");
    b.append("<NewProtocol>");
    b.append(protocol.label());
    b.append("</NewProtocol>");
    b.append("\n                <NewExternalPort>");
    push_dec_u32(&mut b, external_port as u32);
    b.append("</NewExternalPort>\n                <NewRemoteHost></NewRemoteHost>\n            </u:");
    b.append("DeletePortMapping");
    b.append(">\n        </s:Body>\n        </s:Envelope>\n        ");
    SoapRequest { header: soap_action_header("DeletePortMapping"), body: b }
}

/// Every mapping envelope carries the protocol's wire text verbatim
/// inside the `NewProtocol` element.
pub proof fn lemma_envelope_names_protocol(
    action: Seq<char>,
    protocol: PortMappingProtocol,
    external_port: u16,
    local_addr: SocketAddrV4,
    lease_duration: u32,
    description: Seq<char>,
)
    ensures
        ({
            let body = mapping_body(
                action,
                protocol,
                external_port,
                local_addr,
                lease_duration,
                description,
            );
            exists|i: int|
                0 <= i && i + 30 <= body.len() && #[trigger] body.subrange(i, i + 13)
                    == "<NewProtocol>"@ && body.subrange(i + 13, i + 16) == protocol_label(protocol)
                    && body.subrange(i + 16, i + 30) == "</NewProtocol>"@
        }),
{
    let body = mapping_body(action, protocol, external_port, local_addr, lease_duration, description);
    let pre = "<?xml version=\"1.0\"?>\n        <s:Envelope xmlns:s=\"http://schemas.xmlsoap.org/soap/envelope/\" s:encodingStyle=\"http://schemas.xmlsoap.org/soap/encoding/\">\n        <s:Body>\n            <u:"@
        + action
        + " xmlns:u=\"urn:schemas-upnp-org:service:WANIPConnection:1\">\n                "@;
    let i = pre.len() as int;
    reveal_strlit("<NewProtocol>");
    reveal_strlit("</NewProtocol>");
    assert(body.subrange(i, i + 13) =~= "<NewProtocol>"@);
    assert(body.subrange(i + 13, i + 16) =~= protocol_label(protocol));
    assert(body.subrange(i + 16, i + 30) =~= "</NewProtocol>"@);
}

} // verus!
