use nat_discovery::BindingRequest;
use nat_discovery::BindingResponse;
use nat_discovery::ChangeRequestFlags;
use nat_discovery::FilteringBehaviorProcedure;
use nat_discovery::FilteringStep;
use nat_discovery::IpAddress;
use nat_discovery::NATFilteringType;
use nat_discovery::SocketAddress;
use nat_discovery::StunAttribute;
use nat_discovery::StunClientError;
use nat_discovery::check_nat_filtering_behavior;

fn sock6(segment: u16, port: u16) -> SocketAddress {
    SocketAddress { ip: IpAddress::V6(segment as u128), port }
}

fn response(xor_mapped_addr: Option<SocketAddress>) -> Result<BindingResponse, StunClientError<u32>> {
    Ok(BindingResponse { xor_mapped_addr, other_addr: None })
}

#[test]
fn test2_response_means_endpoint_independent() {
    let server = sock6(1, 3478);
    let mapped = sock6(9, 40000);

    let (mut procedure, request) = FilteringBehaviorProcedure::new(server);
    assert_eq!(request, BindingRequest { target: server, change_request: None });

    let step1 = procedure.handle_response::<u32>(response(Some(mapped)));
    // Test2 asks the server to reply from a changed IP and a changed port.
    assert_eq!(
        step1,
        FilteringStep::Send(BindingRequest {
            target: server,
            change_request: Some(ChangeRequestFlags { change_ip: true, change_port: true }),
        })
    );

    let step2 = procedure.handle_response::<u32>(response(None));
    assert!(procedure.is_finished());
    match step2 {
        FilteringStep::Finished(Ok(result)) => {
            assert_eq!(result.filtering_type, NATFilteringType::EndpointIndependent);
            assert_eq!(result.xor_mapped_addr, Some(mapped));
        }
        other_step => panic!("expected EndpointIndependent, got {:?}", other_step),
    }
}

#[test]
fn test2_timeout_then_test3_response_means_address_dependent() {
    let server = sock6(1, 3478);
    let mapped = sock6(9, 40000);

    let (mut procedure, _request) = FilteringBehaviorProcedure::new(server);
    let _step1 = procedure.handle_response::<u32>(response(Some(mapped)));

    let step2 = procedure.handle_response::<u32>(Err(StunClientError::Timeout));
    // Test3 asks for a changed port only, from the same server IP.
    assert_eq!(
        step2,
        FilteringStep::Send(BindingRequest {
            target: server,
            change_request: Some(ChangeRequestFlags { change_ip: false, change_port: true }),
        })
    );

    let step3 = procedure.handle_response::<u32>(response(None));
    assert!(procedure.is_finished());
    match step3 {
        FilteringStep::Finished(Ok(result)) => {
            assert_eq!(result.filtering_type, NATFilteringType::AddressDependent);
            assert_eq!(result.xor_mapped_addr, Some(mapped));
        }
        other_step => panic!("expected AddressDependent, got {:?}", other_step),
    }
}

#[test]
fn both_timeouts_mean_address_and_port_dependent() {
    let server = sock6(1, 3478);
    let mapped = sock6(9, 40000);

    let result = check_nat_filtering_behavior::<u32>(
        server,
        response(Some(mapped)),
        Err(StunClientError::Timeout),
        Err(StunClientError::Timeout),
    )
    .expect("procedure should succeed");
    assert_eq!(result.filtering_type, NATFilteringType::AddressAndPortDependent);
    assert_eq!(result.xor_mapped_addr, Some(mapped));
}

#[test]
fn test2_non_timeout_error_propagates_and_skips_test3() {
    let server = sock6(1, 3478);
    let mapped = sock6(9, 40000);

    let (mut procedure, _request) = FilteringBehaviorProcedure::new(server);
    let _step1 = procedure.handle_response::<u32>(response(Some(mapped)));

    let step2 = procedure.handle_response::<u32>(Err(StunClientError::Other(3)));
    // Test3 is never attempted: the run is already over.
    assert!(procedure.is_finished());
    assert_eq!(step2, FilteringStep::Finished(Err(StunClientError::Other(3))));
}

#[test]
fn missing_xor_mapped_address_fails_filtering() {
    let server = sock6(1, 3478);

    let (mut procedure, _request) = FilteringBehaviorProcedure::new(server);
    let step = procedure.handle_response::<u32>(response(None));
    assert!(procedure.is_finished());
    assert_eq!(
        step,
        FilteringStep::Finished(Err(StunClientError::NotSupported(
            StunAttribute::XorMappedAddress
        )))
    );
}

#[test]
fn test1_timeout_is_fatal_for_filtering() {
    let server = sock6(1, 3478);

    let result = check_nat_filtering_behavior::<u32>(
        server,
        Err(StunClientError::Timeout),
        response(None),
        response(None),
    );
    assert_eq!(result, Err(StunClientError::Timeout));
}

#[test]
fn filtering_classification_is_stable_across_runs() {
    let server = sock6(1, 3478);

    // A NAT with stable behavior answers the same pattern both times, even
    // if the mapped address's ephemeral port changed between the runs.
    let first = check_nat_filtering_behavior::<u32>(
        server,
        response(Some(sock6(9, 40000))),
        Err(StunClientError::Timeout),
        response(None),
    )
    .expect("first run should succeed");
    let second = check_nat_filtering_behavior::<u32>(
        server,
        response(Some(sock6(9, 50000))),
        Err(StunClientError::Timeout),
        response(None),
    )
    .expect("second run should succeed");
    assert_eq!(first.filtering_type, second.filtering_type);
    assert_eq!(first.filtering_type, NATFilteringType::AddressDependent);
}

#[test]
fn change_request_attribute_name() {
    assert_eq!(StunAttribute::ChangeRequest.name(), "CHANGE-REQUEST".to_string());
}
