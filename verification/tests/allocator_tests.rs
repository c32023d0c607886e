use igd::allocator::{add_any_port, AllocStep, AnyPortAllocator};
use igd::envelope::MappingRequest;
use igd::{
    AddAnyPortError, Ipv4Addr, PortMappingProtocol, RequestError, SocketAddrV4, TransportEvent,
};

fn mapping() -> MappingRequest {
    MappingRequest {
        protocol: PortMappingProtocol::TCP,
        local_addr: SocketAddrV4::new(Ipv4Addr::new(192, 168, 0, 10), 7000),
        lease_duration: 0,
        description: String::from("igd test"),
    }
}

fn fault(code: u16) -> TransportEvent {
    TransportEvent::Reply(format!(
        "<?xml version=\"1.0\"?>\
         <s:Envelope xmlns:s=\"http://schemas.xmlsoap.org/soap/envelope/\">\
         <s:Body><s:Fault><detail>\
         <UPnPError xmlns=\"urn:schemas-upnp-org:control-1-0\">\
         <errorCode>{}</errorCode>\
         <errorDescription>fault</errorDescription>\
         </UPnPError></detail></s:Fault></s:Body></s:Envelope>",
        code
    ))
}

fn add_port_ok() -> TransportEvent {
    TransportEvent::Reply(String::from(
        "<?xml version=\"1.0\"?>\
         <s:Envelope xmlns:s=\"http://schemas.xmlsoap.org/soap/envelope/\">\
         <s:Body><u:AddPortMappingResponse xmlns:u=\"urn:schemas-upnp-org:service:WANIPConnection:1\">\
         </u:AddPortMappingResponse></s:Body></s:Envelope>",
    ))
}

fn any_port_ok(port: &str) -> TransportEvent {
    TransportEvent::Reply(format!(
        "<?xml version=\"1.0\"?>\
         <s:Envelope xmlns:s=\"http://schemas.xmlsoap.org/soap/envelope/\">\
         <s:Body><u:AddAnyPortMappingResponse xmlns:u=\"urn:schemas-upnp-org:service:WANIPConnection:1\">\
         <NewReservedPort>{}</NewReservedPort>\
         </u:AddAnyPortMappingResponse></s:Body></s:Envelope>",
        port
    ))
}

fn expect_send(step: AllocStep) -> (AnyPortAllocator, igd::SoapRequest) {
    match step {
        AllocStep::Send(a, rq) => (a, rq),
        AllocStep::Done(r) => panic!("expected a request to send, got {:?}", r),
    }
}

fn expect_done(step: AllocStep) -> Result<u16, AddAnyPortError> {
    match step {
        AllocStep::Done(r) => r,
        AllocStep::Send(_, _) => panic!("expected the allocator to finish"),
    }
}

#[test]
fn internal_port_zero_sends_nothing() {
    let mut req = mapping();
    req.local_addr = SocketAddrV4::new(Ipv4Addr::new(192, 168, 0, 10), 0);
    let r = expect_done(add_any_port(req, 40000));
    assert_eq!(r, Err(AddAnyPortError::InternalPortZeroInvalid));
}

#[test]
fn native_any_port_success_reads_reserved_port() {
    let (a, rq) = expect_send(add_any_port(mapping(), 40000));
    assert!(rq.header.contains("#AddAnyPortMapping\""));
    assert!(rq.body.contains("<NewExternalPort>40000</NewExternalPort>"));
    let r = expect_done(a.on_event(any_port_ok("39001"), 40001));
    assert_eq!(r, Ok(39001));
}

#[test]
fn reserved_port_missing_is_invalid_response() {
    let (a, _) = expect_send(add_any_port(mapping(), 40000));
    let r = expect_done(a.on_event(add_port_ok(), 40001));
    match r {
        Err(AddAnyPortError::RequestError(RequestError::InvalidResponse(_))) => {},
        other => panic!("expected InvalidResponse, got {:?}", other),
    }
}

#[test]
fn native_any_port_terminal_faults() {
    let cases = [
        (605, AddAnyPortError::DescriptionTooLong),
        (606, AddAnyPortError::ActionNotAuthorized),
        (728, AddAnyPortError::NoPortsAvailable),
    ];
    for (code, expected) in cases {
        let (a, _) = expect_send(add_any_port(mapping(), 40000));
        assert_eq!(expect_done(a.on_event(fault(code), 40001)), Err(expected));
    }
    let (a, _) = expect_send(add_any_port(mapping(), 40000));
    assert_eq!(
        expect_done(a.on_event(fault(501), 40001)),
        Err(AddAnyPortError::RequestError(RequestError::ErrorCode(501, String::from("fault"))))
    );
}

#[test]
fn unknown_action_falls_back_and_twentieth_candidate_wins() {
    let (a, _) = expect_send(add_any_port(mapping(), 40000));
    // fault 401: the router does not know AddAnyPortMapping
    let (mut a, rq) = expect_send(a.on_event(fault(401), 41000));
    assert!(rq.header.contains("#AddPortMapping\""));
    assert!(rq.body.contains("<NewExternalPort>41000</NewExternalPort>"));
    // nineteen conflicting candidates: attempts 2 through 20 go out
    let mut last_candidate: u16 = 41000;
    for i in 0..19u16 {
        let next = 42000 + i;
        let (a2, rq) = expect_send(a.on_event(fault(718), next));
        assert!(rq.body.contains(&format!("<NewExternalPort>{}</NewExternalPort>", next)));
        a = a2;
        last_candidate = next;
    }
    // the twentieth attempt succeeds: its candidate is the allocated port
    let r = expect_done(a.on_event(add_port_ok(), 50000));
    assert_eq!(r, Ok(last_candidate));
    assert_eq!(last_candidate, 42018);
}

#[test]
fn twenty_conflicts_exhaust_the_budget() {
    let (a, _) = expect_send(add_any_port(mapping(), 40000));
    let (mut a, _) = expect_send(a.on_event(fault(401), 41000));
    for i in 0..19u16 {
        let (a2, _) = expect_send(a.on_event(fault(718), 42000 + i));
        a = a2;
    }
    // the twentieth conflict ends the loop
    let r = expect_done(a.on_event(fault(718), 50000));
    assert_eq!(r, Err(AddAnyPortError::NoPortsAvailable));
}

#[test]
fn fault_724_triggers_one_same_port_retry_only() {
    let (a, _) = expect_send(add_any_port(mapping(), 40000));
    let (a, _) = expect_send(a.on_event(fault(401), 41000));
    // the router demands internal == external: one retry with port 7000
    let (a, rq) = expect_send(a.on_event(fault(724), 43000));
    assert!(rq.body.contains("<NewExternalPort>7000</NewExternalPort>"));
    assert!(rq.body.contains("<NewInternalPort>7000</NewInternalPort>"));
    // whatever comes back, the loop is not re-entered
    let r = expect_done(a.on_event(fault(718), 44000));
    assert_eq!(r, Err(AddAnyPortError::ExternalPortInUse));
}

#[test]
fn same_port_retry_success_returns_internal_port() {
    let (a, _) = expect_send(add_any_port(mapping(), 40000));
    let (a, _) = expect_send(a.on_event(fault(401), 41000));
    let (a, _) = expect_send(a.on_event(fault(724), 43000));
    assert_eq!(expect_done(a.on_event(add_port_ok(), 44000)), Ok(7000));
}

#[test]
fn same_port_retry_fault_table() {
    let cases = [
        (606, AddAnyPortError::ActionNotAuthorized),
        (725, AddAnyPortError::OnlyPermanentLeasesSupported),
    ];
    for (code, expected) in cases {
        let (a, _) = expect_send(add_any_port(mapping(), 40000));
        let (a, _) = expect_send(a.on_event(fault(401), 41000));
        let (a, _) = expect_send(a.on_event(fault(724), 43000));
        assert_eq!(expect_done(a.on_event(fault(code), 44000)), Err(expected));
    }
}

#[test]
fn fallback_terminal_faults() {
    // 605, 606 and 725 end the loop; 728 is not special here and passes
    // through as a plain fault
    let cases = [
        (605, AddAnyPortError::DescriptionTooLong),
        (606, AddAnyPortError::ActionNotAuthorized),
        (725, AddAnyPortError::OnlyPermanentLeasesSupported),
        (728, AddAnyPortError::RequestError(RequestError::ErrorCode(728, String::from("fault")))),
    ];
    for (code, expected) in cases {
        let (a, _) = expect_send(add_any_port(mapping(), 40000));
        let (a, _) = expect_send(a.on_event(fault(401), 41000));
        assert_eq!(expect_done(a.on_event(fault(code), 42000)), Err(expected));
    }
}

#[test]
fn transport_failure_ends_the_allocation() {
    let (a, _) = expect_send(add_any_port(mapping(), 40000));
    let r = expect_done(a.on_event(TransportEvent::Failed(String::from("timed out")), 40001));
    assert_eq!(
        r,
        Err(AddAnyPortError::RequestError(RequestError::TransportError(String::from(
            "timed out"
        ))))
    );
}

#[test]
fn candidate_ports_stay_in_the_drawing_range() {
    for _ in 0..100 {
        let p = igd::rng::draw_candidate_port();
        assert!((32768..65535).contains(&p));
    }
}
