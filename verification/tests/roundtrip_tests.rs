use igd::envelope::{add_port_mapping_request, MappingRequest};
use igd::response::parse_response;
use igd::xml::find_child_index;
use igd::{Ipv4Addr, PortMappingProtocol, SocketAddrV4};

#[test]
fn envelope_round_trips_through_the_parser() {
    // the exact XML the builder renders, read back by the parser: every
    // field value survives, the escaped description included
    let description = "a&<b>\"'c and plain text";
    let req = MappingRequest {
        protocol: PortMappingProtocol::UDP,
        local_addr: SocketAddrV4::new(Ipv4Addr::new(10, 0, 0, 42), 6881),
        lease_duration: 86400,
        description: String::from(description),
    };
    let rq = add_port_mapping_request(&req, 51413);
    let (_, node) = parse_response(rq.body, "AddPortMapping").expect("the envelope parses");
    assert_eq!(node.name, "AddPortMapping");
    let field = |name: &str| -> String {
        let i = find_child_index(&node.children, name).expect("field present");
        node.children[i].text.clone().expect("field has text")
    };
    assert_eq!(field("NewProtocol"), "UDP");
    assert_eq!(field("NewExternalPort"), "51413");
    assert_eq!(field("NewInternalClient"), "10.0.0.42");
    assert_eq!(field("NewInternalPort"), "6881");
    assert_eq!(field("NewLeaseDuration"), "86400");
    assert_eq!(field("NewPortMappingDescription"), description);
    assert_eq!(field("NewEnabled"), "1");
    let i = find_child_index(&node.children, "NewRemoteHost").expect("field present");
    assert_eq!(node.children[i].text, None);
}

#[test]
fn delete_envelope_round_trips_through_the_parser() {
    let rq = igd::envelope::delete_port_mapping_request(PortMappingProtocol::TCP, 8080);
    let (_, node) = parse_response(rq.body, "DeletePortMapping").expect("the envelope parses");
    let i = find_child_index(&node.children, "NewExternalPort").expect("field present");
    assert_eq!(node.children[i].text.clone().expect("text"), "8080");
    let i = find_child_index(&node.children, "NewProtocol").expect("field present");
    assert_eq!(node.children[i].text.clone().expect("text"), "TCP");
}
