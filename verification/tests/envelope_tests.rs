use igd::actions::add_port;
use igd::envelope::{
    add_any_port_mapping_request, add_port_mapping_request, delete_port_mapping_request,
    get_external_ip_request, MappingRequest,
};
use igd::escape::escape_text;
use igd::{AddPortError, Gateway, Ipv4Addr, PortMappingProtocol, SocketAddrV4};

fn request(protocol: PortMappingProtocol) -> MappingRequest {
    MappingRequest {
        protocol,
        local_addr: SocketAddrV4::new(Ipv4Addr::new(192, 168, 0, 10), 7000),
        lease_duration: 3600,
        description: String::from("test mapping"),
    }
}

#[test]
fn tcp_envelope_names_tcp() {
    let rq = add_port_mapping_request(&request(PortMappingProtocol::TCP), 8080);
    assert!(rq.body.contains("<NewProtocol>TCP</NewProtocol>"));
    let rq = add_any_port_mapping_request(&request(PortMappingProtocol::TCP), 40000);
    assert!(rq.body.contains("<NewProtocol>TCP</NewProtocol>"));
    let rq = delete_port_mapping_request(PortMappingProtocol::TCP, 8080);
    assert!(rq.body.contains("<NewProtocol>TCP</NewProtocol>"));
}

#[test]
fn udp_envelope_names_udp() {
    let rq = add_port_mapping_request(&request(PortMappingProtocol::UDP), 8080);
    assert!(rq.body.contains("<NewProtocol>UDP</NewProtocol>"));
    let rq = add_any_port_mapping_request(&request(PortMappingProtocol::UDP), 40000);
    assert!(rq.body.contains("<NewProtocol>UDP</NewProtocol>"));
    let rq = delete_port_mapping_request(PortMappingProtocol::UDP, 8080);
    assert!(rq.body.contains("<NewProtocol>UDP</NewProtocol>"));
}

#[test]
fn mapping_envelope_carries_all_parameters() {
    let rq = add_port_mapping_request(&request(PortMappingProtocol::TCP), 8080);
    assert_eq!(
        rq.header,
        "\"urn:schemas-upnp-org:service:WANIPConnection:1#AddPortMapping\""
    );
    assert!(rq.body.contains("<u:AddPortMapping xmlns:u=\"urn:schemas-upnp-org:service:WANIPConnection:1\">"));
    assert!(rq.body.contains("<NewExternalPort>8080</NewExternalPort>"));
    assert!(rq.body.contains("<NewInternalClient>192.168.0.10</NewInternalClient>"));
    assert!(rq.body.contains("<NewInternalPort>7000</NewInternalPort>"));
    assert!(rq.body.contains("<NewLeaseDuration>3600</NewLeaseDuration>"));
    assert!(rq.body.contains("<NewPortMappingDescription>test mapping</NewPortMappingDescription>"));
    assert!(rq.body.contains("<NewEnabled>1</NewEnabled>"));
    assert!(rq.body.contains("<NewRemoteHost></NewRemoteHost>"));
}

#[test]
fn get_external_ip_envelope_is_fixed() {
    let rq = get_external_ip_request();
    assert_eq!(
        rq.header,
        "\"urn:schemas-upnp-org:service:WANIPConnection:1#GetExternalIPAddress\""
    );
    assert!(rq.body.contains("<m:GetExternalIPAddress xmlns:m=\"urn:schemas-upnp-org:service:WANIPConnection:1\">"));
}

#[test]
fn description_is_escaped_not_rejected() {
    let mut req = request(PortMappingProtocol::TCP);
    req.description = String::from("a&<b>\"'c");
    let rq = add_port_mapping_request(&req, 8080);
    assert!(rq.body.contains(
        "<NewPortMappingDescription>a&amp;&lt;b&gt;&quot;&apos;c</NewPortMappingDescription>"
    ));
}

#[test]
fn escape_text_rewrites_the_five_entities() {
    assert_eq!(escape_text("a&b"), "a&amp;b");
    assert_eq!(escape_text("<tag>"), "&lt;tag&gt;");
    assert_eq!(escape_text("\"q\" 'a'"), "&quot;q&quot; &apos;a&apos;");
    assert_eq!(escape_text("plain"), "plain");
    assert_eq!(escape_text(""), "");
}

#[test]
fn add_port_external_zero_is_rejected_locally() {
    // no request is ever rendered: the result is an error, not an envelope
    let r = add_port(&request(PortMappingProtocol::TCP), 0);
    assert_eq!(r.err(), Some(AddPortError::ExternalPortZeroInvalid));
}

#[test]
fn add_port_internal_zero_is_rejected_locally() {
    let mut req = request(PortMappingProtocol::TCP);
    req.local_addr = SocketAddrV4::new(Ipv4Addr::new(192, 168, 0, 10), 0);
    let r = add_port(&req, 8080);
    assert_eq!(r.err(), Some(AddPortError::InternalPortZeroInvalid));
}

#[test]
fn gateway_url_joins_address_and_path() {
    let g = Gateway {
        addr: SocketAddrV4::new(Ipv4Addr::new(192, 168, 0, 1), 1900),
        control_url: String::from("/igd/control"),
    };
    assert_eq!(g.url(), "http://192.168.0.1:1900/igd/control");
}
