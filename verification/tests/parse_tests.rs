use igd::actions::{add_port_response, get_external_ip, get_any_address_ip_step, remove_port};
use igd::addr::parse_ipv4;
use igd::response::parse_response;
use igd::strings::parse_u16;
use igd::{
    AddAnyPortError, AddPortError, GetExternalIpError, Ipv4Addr, RemovePortError, RequestError,
    TransportEvent,
};

fn fault_xml(code: u16, description: &str) -> String {
    format!(
        "<?xml version=\"1.0\"?>\
         <s:Envelope xmlns:s=\"http://schemas.xmlsoap.org/soap/envelope/\">\
         <s:Body><s:Fault><faultcode>s:Client</faultcode>\
         <faultstring>UPnPError</faultstring><detail>\
         <UPnPError xmlns=\"urn:schemas-upnp-org:control-1-0\">\
         <errorCode>{}</errorCode>\
         <errorDescription>{}</errorDescription>\
         </UPnPError></detail></s:Fault></s:Body></s:Envelope>",
        code, description
    )
}

fn ip_success_xml(ip: &str) -> String {
    format!(
        "<?xml version=\"1.0\"?>\
         <s:Envelope xmlns:s=\"http://schemas.xmlsoap.org/soap/envelope/\">\
         <s:Body><u:GetExternalIPAddressResponse xmlns:u=\"urn:schemas-upnp-org:service:WANIPConnection:1\">\
         <NewExternalIPAddress>{}</NewExternalIPAddress>\
         </u:GetExternalIPAddressResponse></s:Body></s:Envelope>",
        ip
    )
}

#[test]
fn get_external_ip_reads_the_address() {
    let ev = TransportEvent::Reply(ip_success_xml("1.2.3.4"));
    assert_eq!(get_external_ip(ev), Ok(Ipv4Addr::new(1, 2, 3, 4)));
}

#[test]
fn get_external_ip_rejects_bad_address_text() {
    let text = ip_success_xml("not-an-ip");
    let ev = TransportEvent::Reply(text.clone());
    assert_eq!(
        get_external_ip(ev),
        Err(GetExternalIpError::RequestError(RequestError::InvalidResponse(text)))
    );
}

#[test]
fn fault_606_names_each_action() {
    let ev = TransportEvent::Reply(fault_xml(606, "denied"));
    assert_eq!(get_external_ip(ev), Err(GetExternalIpError::ActionNotAuthorized));
    let ev = TransportEvent::Reply(fault_xml(606, "denied"));
    assert_eq!(add_port_response(ev), Err(AddPortError::ActionNotAuthorized));
    let ev = TransportEvent::Reply(fault_xml(606, "denied"));
    assert_eq!(remove_port(ev), Err(RemovePortError::ActionNotAuthorized));
}

#[test]
fn add_port_fault_table() {
    let cases = [
        (605, AddPortError::DescriptionTooLong),
        (606, AddPortError::ActionNotAuthorized),
        (718, AddPortError::PortInUse),
        (724, AddPortError::SamePortValuesRequired),
        (725, AddPortError::OnlyPermanentLeasesSupported),
    ];
    for (code, expected) in cases {
        let ev = TransportEvent::Reply(fault_xml(code, "fault"));
        assert_eq!(add_port_response(ev), Err(expected));
    }
    let ev = TransportEvent::Reply(fault_xml(999, "strange"));
    assert_eq!(
        add_port_response(ev),
        Err(AddPortError::RequestError(RequestError::ErrorCode(999, String::from("strange"))))
    );
}

#[test]
fn remove_port_fault_table() {
    let ev = TransportEvent::Reply(fault_xml(714, "no such mapping"));
    assert_eq!(remove_port(ev), Err(RemovePortError::NoSuchPortMapping));
    let ev = TransportEvent::Reply(fault_xml(501, "action failed"));
    assert_eq!(
        remove_port(ev),
        Err(RemovePortError::RequestError(RequestError::ErrorCode(
            501,
            String::from("action failed")
        )))
    );
    let ok = "<?xml version=\"1.0\"?>\
        <s:Envelope xmlns:s=\"http://schemas.xmlsoap.org/soap/envelope/\">\
        <s:Body><u:DeletePortMappingResponse xmlns:u=\"urn:schemas-upnp-org:service:WANIPConnection:1\">\
        </u:DeletePortMappingResponse></s:Body></s:Envelope>";
    assert_eq!(remove_port(TransportEvent::Reply(String::from(ok))), Ok(()));
}

#[test]
fn transport_failure_passes_through() {
    let ev = TransportEvent::Failed(String::from("connection refused"));
    assert_eq!(
        add_port_response(ev),
        Err(AddPortError::RequestError(RequestError::TransportError(String::from(
            "connection refused"
        ))))
    );
}

#[test]
fn malformed_xml_is_invalid_response() {
    let text = String::from("this is not xml <");
    let r = parse_response(text.clone(), "AddPortMappingResponse");
    assert_eq!(r, Err(RequestError::InvalidResponse(text)));
}

#[test]
fn missing_body_is_invalid_response() {
    let text = String::from(
        "<?xml version=\"1.0\"?><root><other>1</other></root>",
    );
    let r = parse_response(text.clone(), "AddPortMappingResponse");
    assert_eq!(r, Err(RequestError::InvalidResponse(text)));
}

#[test]
fn fault_without_error_code_is_invalid_response() {
    let text = String::from(
        "<?xml version=\"1.0\"?>\
         <s:Envelope xmlns:s=\"http://schemas.xmlsoap.org/soap/envelope/\">\
         <s:Body><s:Fault><detail>\
         <UPnPError xmlns=\"urn:schemas-upnp-org:control-1-0\">\
         <errorDescription>only a description</errorDescription>\
         </UPnPError></detail></s:Fault></s:Body></s:Envelope>",
    );
    let r = parse_response(text.clone(), "AddPortMappingResponse");
    assert_eq!(r, Err(RequestError::InvalidResponse(text)));
}

#[test]
fn non_numeric_error_code_is_invalid_response() {
    let text = fault_xml(606, "x").replace("606", "abc");
    let r = parse_response(text.clone(), "AddPortMappingResponse");
    assert_eq!(r, Err(RequestError::InvalidResponse(text)));
}

#[test]
fn success_is_found_before_fault_is_tried() {
    // a Body holding both the success element and a Fault reads as success
    let text = String::from(
        "<?xml version=\"1.0\"?>\
         <s:Envelope xmlns:s=\"http://schemas.xmlsoap.org/soap/envelope/\">\
         <s:Body>\
         <u:AddPortMappingResponse xmlns:u=\"urn:schemas-upnp-org:service:WANIPConnection:1\">\
         </u:AddPortMappingResponse>\
         <s:Fault><detail><UPnPError xmlns=\"urn:schemas-upnp-org:control-1-0\">\
         <errorCode>718</errorCode><errorDescription>busy</errorDescription>\
         </UPnPError></detail></s:Fault>\
         </s:Body></s:Envelope>",
    );
    assert!(parse_response(text, "AddPortMappingResponse").is_ok());
}

#[test]
fn parse_u16_accepts_digits_only() {
    assert_eq!(parse_u16("0"), Some(0));
    assert_eq!(parse_u16("007"), Some(7));
    assert_eq!(parse_u16("65535"), Some(65535));
    assert_eq!(parse_u16("65536"), None);
    assert_eq!(parse_u16(""), None);
    assert_eq!(parse_u16("12a"), None);
    assert_eq!(parse_u16("+5"), None);
}

#[test]
fn parse_ipv4_accepts_dotted_quads() {
    assert_eq!(parse_ipv4("0.0.0.0"), Some(Ipv4Addr::new(0, 0, 0, 0)));
    assert_eq!(parse_ipv4("255.255.255.255"), Some(Ipv4Addr::new(255, 255, 255, 255)));
    assert_eq!(parse_ipv4("10.0.42.7"), Some(Ipv4Addr::new(10, 0, 42, 7)));
    assert_eq!(parse_ipv4("256.0.0.1"), None);
    assert_eq!(parse_ipv4("01.2.3.4"), None);
    assert_eq!(parse_ipv4("1.2.3"), None);
    assert_eq!(parse_ipv4("1.2.3.4.5"), None);
    assert_eq!(parse_ipv4("1.2.3."), None);
    assert_eq!(parse_ipv4(""), None);
    assert_eq!(parse_ipv4("a.b.c.d"), None);
}

#[test]
fn ip_step_carries_authorization_failure_by_name() {
    assert_eq!(
        get_any_address_ip_step(Ok(Ipv4Addr::new(1, 2, 3, 4))),
        Ok(Ipv4Addr::new(1, 2, 3, 4))
    );
    assert_eq!(
        get_any_address_ip_step(Err(GetExternalIpError::ActionNotAuthorized)),
        Err(AddAnyPortError::ActionNotAuthorized)
    );
    assert_eq!(
        get_any_address_ip_step(Err(GetExternalIpError::RequestError(
            RequestError::TransportError(String::from("down"))
        ))),
        Err(AddAnyPortError::RequestError(RequestError::TransportError(String::from("down"))))
    );
}
