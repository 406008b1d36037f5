use nat_discovery::BindingRequest;
use nat_discovery::BindingResponse;
use nat_discovery::IpAddress;
use nat_discovery::MappingBehaviorProcedure;
use nat_discovery::MappingStep;
use nat_discovery::NATMappingType;
use nat_discovery::SocketAddress;
use nat_discovery::StunAttribute;
use nat_discovery::StunClientError;
use nat_discovery::check_nat_mapping_behavior;

fn sock(a: u8, b: u8, c: u8, d: u8, port: u16) -> SocketAddress {
    let ip = u32::from_be_bytes([a, b, c, d]);
    SocketAddress { ip: IpAddress::V4(ip), port }
}

fn response(
    xor_mapped_addr: Option<SocketAddress>,
    other_addr: Option<SocketAddress>,
) -> Result<BindingResponse, StunClientError<u32>> {
    Ok(BindingResponse { xor_mapped_addr, other_addr })
}

#[test]
fn no_nat_after_single_exchange() {
    let server = sock(203, 0, 113, 1, 3478);
    let other = sock(203, 0, 113, 2, 3479);
    let mapped = sock(192, 168, 0, 7, 54321);
    let locals = vec![IpAddress::V4(u32::from_be_bytes([10, 0, 0, 1])), mapped.ip];

    let (mut procedure, request) = MappingBehaviorProcedure::new(server, locals);
    assert_eq!(request, BindingRequest { target: server, change_request: None });
    assert!(!procedure.is_finished());

    let step = procedure.handle_response::<u32>(response(Some(mapped), Some(other)));
    // One exchange settles the run: no further request is handed out.
    assert!(procedure.is_finished());
    match step {
        MappingStep::Finished(Ok(result)) => {
            assert_eq!(result.mapping_type, NATMappingType::NoNAT);
            assert_eq!(result.test1_xor_mapped_addr, Some(mapped));
            assert_eq!(result.test2_xor_mapped_addr, None);
            assert_eq!(result.test3_xor_mapped_addr, None);
        }
        other_step => panic!("expected NoNAT, got {:?}", other_step),
    }
}

#[test]
fn endpoint_independent_after_exactly_two_exchanges() {
    let server = sock(203, 0, 113, 1, 3478);
    let other = sock(203, 0, 113, 2, 3479);
    let mapped = sock(198, 51, 100, 9, 40000);
    let locals = vec![IpAddress::V4(u32::from_be_bytes([192, 168, 0, 7]))];

    let (mut procedure, request) = MappingBehaviorProcedure::new(server, locals);
    assert_eq!(request.target, server);

    let step1 = procedure.handle_response::<u32>(response(Some(mapped), Some(other)));
    // Second exchange goes to the OTHER-ADDRESS with no extra attributes.
    assert_eq!(
        step1,
        MappingStep::Send(BindingRequest { target: other, change_request: None })
    );
    assert!(!procedure.is_finished());

    let step2 = procedure.handle_response::<u32>(response(Some(mapped), None));
    assert!(procedure.is_finished());
    match step2 {
        MappingStep::Finished(Ok(result)) => {
            assert_eq!(result.mapping_type, NATMappingType::EndpointIndependent);
            assert_eq!(result.test1_xor_mapped_addr, Some(mapped));
            assert_eq!(result.test2_xor_mapped_addr, Some(mapped));
            // No Test3 exchange happened.
            assert_eq!(result.test3_xor_mapped_addr, None);
        }
        other_step => panic!("expected EndpointIndependent, got {:?}", other_step),
    }
}

#[test]
fn address_dependent_after_exactly_three_exchanges() {
    let server = sock(203, 0, 113, 1, 3478);
    let other = sock(203, 0, 113, 2, 3479);
    let mapped1 = sock(198, 51, 100, 9, 40000);
    let mapped2 = sock(198, 51, 100, 9, 40001);
    let locals = vec![IpAddress::V4(u32::from_be_bytes([192, 168, 0, 7]))];

    let (mut procedure, _request) = MappingBehaviorProcedure::new(server, locals);
    let step1 = procedure.handle_response::<u32>(response(Some(mapped1), Some(other)));
    assert!(matches!(step1, MappingStep::Send(_)));

    let step2 = procedure.handle_response::<u32>(response(Some(mapped2), None));
    // Third exchange mixes the server's IP with the OTHER-ADDRESS port.
    let expected_target = SocketAddress { ip: server.ip, port: other.port };
    assert_eq!(
        step2,
        MappingStep::Send(BindingRequest { target: expected_target, change_request: None })
    );

    let step3 = procedure.handle_response::<u32>(response(Some(mapped2), None));
    assert!(procedure.is_finished());
    match step3 {
        MappingStep::Finished(Ok(result)) => {
            assert_eq!(result.mapping_type, NATMappingType::AddressDependent);
            assert_eq!(result.test1_xor_mapped_addr, Some(mapped1));
            assert_eq!(result.test2_xor_mapped_addr, Some(mapped2));
            assert_eq!(result.test3_xor_mapped_addr, Some(mapped2));
        }
        other_step => panic!("expected AddressDependent, got {:?}", other_step),
    }
}

#[test]
fn address_and_port_dependent_when_all_mapped_addresses_differ() {
    let server = sock(203, 0, 113, 1, 3478);
    let other = sock(203, 0, 113, 2, 3479);
    let mapped1 = sock(198, 51, 100, 9, 40000);
    let mapped2 = sock(198, 51, 100, 9, 40001);
    let mapped3 = sock(198, 51, 100, 9, 40002);
    let locals = vec![IpAddress::V4(u32::from_be_bytes([192, 168, 0, 7]))];

    let result = check_nat_mapping_behavior::<u32>(
        server,
        locals,
        response(Some(mapped1), Some(other)),
        response(Some(mapped2), None),
        response(Some(mapped3), None),
    )
    .expect("procedure should succeed");
    assert_eq!(result.mapping_type, NATMappingType::AddressAndPortDependent);
    assert_eq!(result.test1_xor_mapped_addr, Some(mapped1));
    assert_eq!(result.test2_xor_mapped_addr, Some(mapped2));
    assert_eq!(result.test3_xor_mapped_addr, Some(mapped3));
}

#[test]
fn missing_other_address_is_not_supported() {
    let server = sock(203, 0, 113, 1, 3478);
    let mapped = sock(198, 51, 100, 9, 40000);
    let locals = vec![];

    let result = check_nat_mapping_behavior::<u32>(
        server,
        locals,
        response(Some(mapped), None),
        Err(StunClientError::Timeout),
        Err(StunClientError::Timeout),
    );
    assert_eq!(
        result,
        Err(StunClientError::NotSupported(StunAttribute::OtherAddress))
    );
}

#[test]
fn missing_xor_mapped_address_is_not_supported() {
    let server = sock(203, 0, 113, 1, 3478);
    let other = sock(203, 0, 113, 2, 3479);
    let locals = vec![];

    let (mut procedure, _request) = MappingBehaviorProcedure::new(server, locals);
    let step = procedure.handle_response::<u32>(response(None, Some(other)));
    // The failure is immediate: no further exchange is issued.
    assert!(procedure.is_finished());
    assert_eq!(
        step,
        MappingStep::Finished(Err(StunClientError::NotSupported(
            StunAttribute::XorMappedAddress
        )))
    );
    assert_eq!(
        StunAttribute::XorMappedAddress.name(),
        "XOR-MAPPED-ADDRESS".to_string()
    );
    assert_eq!(StunAttribute::OtherAddress.name(), "OTHER-ADDRESS".to_string());
}

#[test]
fn timeout_is_fatal_for_mapping() {
    let server = sock(203, 0, 113, 1, 3478);
    let other = sock(203, 0, 113, 2, 3479);
    let mapped = sock(198, 51, 100, 9, 40000);

    let result = check_nat_mapping_behavior::<u32>(
        server,
        vec![],
        Err(StunClientError::Timeout),
        response(None, None),
        response(None, None),
    );
    assert_eq!(result, Err(StunClientError::Timeout));

    let result2 = check_nat_mapping_behavior::<u32>(
        server,
        vec![],
        response(Some(mapped), Some(other)),
        Err(StunClientError::Timeout),
        response(None, None),
    );
    assert_eq!(result2, Err(StunClientError::Timeout));
}

#[test]
fn transport_error_propagates_unchanged() {
    let server = sock(203, 0, 113, 1, 3478);
    let other = sock(203, 0, 113, 2, 3479);
    let mapped = sock(198, 51, 100, 9, 40000);

    let result = check_nat_mapping_behavior::<u32>(
        server,
        vec![],
        response(Some(mapped), Some(other)),
        Err(StunClientError::Other(7)),
        response(None, None),
    );
    assert_eq!(result, Err(StunClientError::Other(7)));
}

#[test]
fn classification_is_stable_when_only_ephemeral_ports_differ() {
    let server = sock(203, 0, 113, 1, 3478);
    let other = sock(203, 0, 113, 2, 3479);
    let locals = vec![IpAddress::V4(u32::from_be_bytes([192, 168, 0, 7]))];

    // A port-dependent NAT answers each destination from a fresh port; a
    // second run sees different ports but the same comparison pattern.
    let first = check_nat_mapping_behavior::<u32>(
        server,
        locals.clone(),
        response(Some(sock(198, 51, 100, 9, 40000)), Some(other)),
        response(Some(sock(198, 51, 100, 9, 40001)), None),
        response(Some(sock(198, 51, 100, 9, 40002)), None),
    )
    .expect("first run should succeed");
    let second = check_nat_mapping_behavior::<u32>(
        server,
        locals,
        response(Some(sock(198, 51, 100, 9, 50000)), Some(other)),
        response(Some(sock(198, 51, 100, 9, 50001)), None),
        response(Some(sock(198, 51, 100, 9, 50002)), None),
    )
    .expect("second run should succeed");
    assert_eq!(first.mapping_type, second.mapping_type);
    assert_eq!(first.mapping_type, NATMappingType::AddressAndPortDependent);
}

#[test]
fn addresses_with_matching_ip_but_differing_port_are_not_equal() {
    let a = sock(198, 51, 100, 9, 40000);
    let b = sock(198, 51, 100, 9, 40001);
    assert_ne!(a, b);
    assert_eq!(a.ip, b.ip);

    // The procedure compares full socket addresses: a Test2 mapping that
    // differs from Test1's in port only is not endpoint-independent.
    let server = sock(203, 0, 113, 1, 3478);
    let other = sock(203, 0, 113, 2, 3479);
    let result = check_nat_mapping_behavior::<u32>(
        server,
        vec![],
        response(Some(a), Some(other)),
        response(Some(b), None),
        response(Some(b), None),
    )
    .expect("procedure should succeed");
    assert_ne!(result.mapping_type, NATMappingType::EndpointIndependent);
    assert_eq!(result.mapping_type, NATMappingType::AddressDependent);
}
