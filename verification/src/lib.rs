//! NAT behavior discovery following RFC 5780.
//!
//! Two procedures classify a NAT device by issuing a short, ordered sequence
//! of STUN Binding requests against a server that supports the OTHER-ADDRESS
//! and CHANGE-REQUEST attributes:
//!
//! * mapping behavior — how the NAT maps one internal endpoint to external
//!   mappings as the destination address and port vary;
//! * filtering behavior — which inbound packets the NAT admits to a
//!   previously mapped endpoint.
//!
//! The decision trees live here as verified state machines: each procedure is
//! a value that hands its caller the next Binding request to send and consumes
//! the outcome of that request as a plain value. The caller owns the sockets,
//! the transport timeouts and the attribute encoding; this crate owns every
//! decision.

mod addr;
mod filtering;
mod mapping;
mod stun;

pub use addr::IpAddress;
pub use addr::SocketAddress;
pub use addr::contains_ip;
pub use addr::lemma_socket_address_equality_exact;
pub use filtering::FilteringBehaviorProcedure;
pub use filtering::FilteringState;
pub use filtering::FilteringStep;
pub use filtering::NATFilteringType;
pub use filtering::NATFilteringTypeResult;
pub use filtering::check_nat_filtering_behavior;
pub use filtering::filtering_finished;
pub use filtering::filtering_outcome;
pub use filtering::filtering_result_with;
pub use filtering::filtering_test2_request;
pub use filtering::filtering_test3_request;
pub use filtering::filtering_transition;
pub use filtering::filtering_transition_test1;
pub use filtering::filtering_transition_test2;
pub use filtering::filtering_transition_test3;
pub use filtering::lemma_filtering_both_timeouts_address_and_port_dependent;
pub use filtering::lemma_filtering_classification_stable;
pub use filtering::lemma_filtering_missing_xor_mapped_address_fails;
pub use filtering::lemma_filtering_test2_other_error_propagates;
pub use filtering::lemma_filtering_test2_response_endpoint_independent;
pub use filtering::lemma_filtering_test2_timeout_test3_response_address_dependent;
pub use mapping::MappingBehaviorProcedure;
pub use mapping::MappingState;
pub use mapping::MappingStep;
pub use mapping::NATMappingType;
pub use mapping::NATMappingTypeResult;
pub use mapping::check_nat_mapping_behavior;
pub use mapping::mapping_finished;
pub use mapping::mapping_outcome;
pub use mapping::mapping_transition;
pub use mapping::mapping_transition_test1;
pub use mapping::mapping_transition_test2;
pub use mapping::mapping_transition_test3;
pub use mapping::lemma_mapping_address_dependent_three_exchanges;
pub use mapping::lemma_mapping_classification_stable;
pub use mapping::lemma_mapping_endpoint_independent_two_exchanges;
pub use mapping::lemma_mapping_missing_xor_mapped_address_fails;
pub use mapping::lemma_mapping_no_nat_single_exchange;
pub use mapping::lemma_mapping_pairwise_distinct_address_and_port_dependent;
pub use mapping::result_with;
pub use stun::BindingRequest;
pub use stun::BindingResponse;
pub use stun::ChangeRequestFlags;
pub use stun::StunAttribute;
pub use stun::StunClientError;
