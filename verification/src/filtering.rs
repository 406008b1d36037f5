//! Classification of a NAT's filtering behavior (RFC 5780, section 4.4).
//!
//! The procedure runs up to three Binding requests, all to the same server:
//!
//! 1. **Test1** with no extra attributes. The response must carry
//!    XOR-MAPPED-ADDRESS; its mapped address is reported whatever the
//!    classification turns out to be.
//! 2. **Test2** with a CHANGE-REQUEST asking the server to reply from a
//!    different IP and port. Any response means the NAT admits packets from
//!    any source; only a timeout carries on to Test3.
//! 3. **Test3** with a CHANGE-REQUEST asking for a different port only. A
//!    response means filtering depends on the source address only; a timeout
//!    means it depends on address and port.
//!
//! A timeout is the *only* informative failure: any other error aborts the
//! run and is propagated unchanged, since it signals a communication problem,
//! not a filtering decision. The network is the caller's:
//! [`FilteringBehaviorProcedure`] is a state machine that hands out each
//! Binding request and consumes its outcome. Each transition is pinned
//! exactly by [`filtering_transition`].

use vstd::prelude::*;
use crate::addr::SocketAddress;
use crate::stun::BindingRequest;
use crate::stun::BindingResponse;
use crate::stun::ChangeRequestFlags;
use crate::stun::StunAttribute;
use crate::stun::StunClientError;

verus! {

/// A NAT type by filtering behavior.
#[derive(Clone, Copy, Debug, PartialEq, Eq, Structural)]
pub enum NATFilteringType {
    /// Inbound packets are admitted from any source.
    EndpointIndependent,
    /// Inbound packets are admitted from the mapped destination's IP only.
    AddressDependent,
    /// Inbound packets are admitted from the exact mapped IP and port only.
    AddressAndPortDependent,
    /// The placeholder before the decision tree completes; never part of a
    /// successful result.
    Unknown,
}

/// What a run of the filtering procedure observed: Test1's mapped address
/// and the classification.
#[derive(Clone, Copy, Debug, PartialEq, Eq)]
pub struct NATFilteringTypeResult {
    pub xor_mapped_addr: Option<SocketAddress>,
    pub filtering_type: NATFilteringType,
}

/// Which Binding request the filtering procedure is waiting on.
#[derive(Clone, Copy, Debug)]
pub enum FilteringState {
    AwaitingTest1,
    AwaitingTest2,
    AwaitingTest3,
    Finished,
}

/// The filtering procedure between two Binding requests.
///
/// `new` hands out Test1's request; each `handle_response` consumes one
/// outcome and either hands out the next request or finishes.
pub struct FilteringBehaviorProcedure {
    pub stun_addr: SocketAddress,
    pub state: FilteringState,
    pub xor_mapped_addr: Option<SocketAddress>,
}

/// What the filtering procedure asks of its caller after consuming an
/// outcome.
#[derive(Debug, PartialEq, Eq)]
pub enum FilteringStep<E> {
    /// Send this Binding request and hand back its outcome.
    Send(BindingRequest),
    /// The procedure is over with this result.
    Finished(Result<NATFilteringTypeResult, StunClientError<E>>),
}

/// The result a finishing procedure reports: Test1's mapped address and the
/// classification it decided on.
pub open spec fn filtering_result_with(
    m: FilteringBehaviorProcedure,
    t: NATFilteringType,
) -> NATFilteringTypeResult {
    NATFilteringTypeResult { xor_mapped_addr: m.xor_mapped_addr, filtering_type: t }
}

/// `m` with its state closed; the recorded address stays as it is.
pub open spec fn filtering_finished(m: FilteringBehaviorProcedure) -> FilteringBehaviorProcedure {
    FilteringBehaviorProcedure { state: FilteringState::Finished, ..m }
}

/// Test2's Binding request: to the server, asking it to reply from a
/// different IP and a different port.
pub open spec fn filtering_test2_request(stun_addr: SocketAddress) -> BindingRequest {
    BindingRequest {
        target: stun_addr,
        change_request: Some(ChangeRequestFlags { change_ip: true, change_port: true }),
    }
}

/// Test3's Binding request: to the server, asking it to reply from a
/// different port only.
pub open spec fn filtering_test3_request(stun_addr: SocketAddress) -> BindingRequest {
    BindingRequest {
        target: stun_addr,
        change_request: Some(ChangeRequestFlags { change_ip: false, change_port: true }),
    }
}

/// Test1's decision: require XOR-MAPPED-ADDRESS, record it, and send Test2;
/// any error — a timeout included — ends the run with that error.
pub open spec fn filtering_transition_test1<E>(
    pre: FilteringBehaviorProcedure,
    outcome: Result<BindingResponse, StunClientError<E>>,
) -> (FilteringBehaviorProcedure, FilteringStep<E>) {
    match outcome {
        Err(e) => (filtering_finished(pre), FilteringStep::Finished(Err(e))),
        Ok(resp) => match resp.xor_mapped_addr {
            None => (
                filtering_finished(pre),
                FilteringStep::Finished(
                    Err(StunClientError::NotSupported(StunAttribute::XorMappedAddress)),
                ),
            ),
            Some(mapped) => (
                FilteringBehaviorProcedure {
                    state: FilteringState::AwaitingTest2,
                    xor_mapped_addr: Some(mapped),
                    ..pre
                },
                FilteringStep::Send(filtering_test2_request(pre.stun_addr)),
            ),
        },
    }
}

/// Test2's decision: any response at all means `EndpointIndependent`; a
/// timeout carries on to Test3; any other error ends the run with that
/// error.
pub open spec fn filtering_transition_test2<E>(
    pre: FilteringBehaviorProcedure,
    outcome: Result<BindingResponse, StunClientError<E>>,
) -> (FilteringBehaviorProcedure, FilteringStep<E>) {
    match outcome {
        Ok(_) => (
            filtering_finished(pre),
            FilteringStep::Finished(
                Ok(filtering_result_with(pre, NATFilteringType::EndpointIndependent)),
            ),
        ),
        Err(e) => match e {
            StunClientError::Timeout => (
                FilteringBehaviorProcedure { state: FilteringState::AwaitingTest3, ..pre },
                FilteringStep::Send(filtering_test3_request(pre.stun_addr)),
            ),
            _ => (filtering_finished(pre), FilteringStep::Finished(Err(e))),
        },
    }
}

/// Test3's decision: a response means `AddressDependent`, a timeout means
/// `AddressAndPortDependent`, and any other error ends the run with that
/// error.
pub open spec fn filtering_transition_test3<E>(
    pre: FilteringBehaviorProcedure,
    outcome: Result<BindingResponse, StunClientError<E>>,
) -> (FilteringBehaviorProcedure, FilteringStep<E>) {
    match outcome {
        Ok(_) => (
            filtering_finished(pre),
            FilteringStep::Finished(
                Ok(filtering_result_with(pre, NATFilteringType::AddressDependent)),
            ),
        ),
        Err(e) => match e {
            StunClientError::Timeout => (
                filtering_finished(pre),
                FilteringStep::Finished(
                    Ok(filtering_result_with(pre, NATFilteringType::AddressAndPortDependent)),
                ),
            ),
            _ => (filtering_finished(pre), FilteringStep::Finished(Err(e))),
        },
    }
}

/// One step of the filtering procedure: the decision of whichever test was
/// awaited.
pub open spec fn filtering_transition<E>(
    pre: FilteringBehaviorProcedure,
    outcome: Result<BindingResponse, StunClientError<E>>,
) -> (FilteringBehaviorProcedure, FilteringStep<E>) {
    match pre.state {
        FilteringState::AwaitingTest1 => filtering_transition_test1(pre, outcome),
        FilteringState::AwaitingTest2 => filtering_transition_test2(pre, outcome),
        FilteringState::AwaitingTest3 => filtering_transition_test3(pre, outcome),
        FilteringState::Finished => (pre, arbitrary()),
    }
}

/// The result of the whole filtering procedure when the three tests would
/// come out as `test1_outcome`, `test2_outcome` and `test3_outcome`: the
/// transitions composed, each outcome consumed only as far as the run gets.
pub open spec fn filtering_outcome<E>(
    stun_addr: SocketAddress,
    test1_outcome: Result<BindingResponse, StunClientError<E>>,
    test2_outcome: Result<BindingResponse, StunClientError<E>>,
    test3_outcome: Result<BindingResponse, StunClientError<E>>,
) -> Result<NATFilteringTypeResult, StunClientError<E>> {
    let (m1, s1) = filtering_transition(
        FilteringBehaviorProcedure::initial(stun_addr),
        test1_outcome,
    );
    match s1 {
        FilteringStep::Finished(r) => r,
        FilteringStep::Send(_) => {
            let (m2, s2) = filtering_transition(m1, test2_outcome);
            match s2 {
                FilteringStep::Finished(r) => r,
                FilteringStep::Send(_) => {
                    let (m3, s3) = filtering_transition(m2, test3_outcome);
                    match s3 {
                        FilteringStep::Finished(r) => r,
                        FilteringStep::Send(_) => arbitrary(),
                    }
                },
            }
        },
    }
}

/// Check NAT filtering behavior: run the whole procedure against the given
/// test outcomes.
///
/// The outcomes stand for what the caller's transport would answer to Test1,
/// Test2 and Test3; the run short-circuits exactly as the step-by-step
/// procedure does, so a later outcome is ignored whenever an earlier test
/// already settled the classification.
pub fn check_nat_filtering_behavior<E>(
    stun_addr: SocketAddress,
    test1_outcome: Result<BindingResponse, StunClientError<E>>,
    test2_outcome: Result<BindingResponse, StunClientError<E>>,
    test3_outcome: Result<BindingResponse, StunClientError<E>>,
) -> (r: Result<NATFilteringTypeResult, StunClientError<E>>)
    ensures
        r == filtering_outcome(stun_addr, test1_outcome, test2_outcome, test3_outcome),
        r matches Ok(res) ==> {
            &&& res.filtering_type != NATFilteringType::Unknown
            &&& res.xor_mapped_addr is Some
        },
{
    let (mut procedure, _request) = FilteringBehaviorProcedure::new(stun_addr);
    match procedure.handle_response(test1_outcome) {
        FilteringStep::Finished(r) => r,
        FilteringStep::Send(_) => match procedure.handle_response(test2_outcome) {
            FilteringStep::Finished(r) => r,
            FilteringStep::Send(_) => match procedure.handle_response(test3_outcome) {
                FilteringStep::Finished(r) => r,
                FilteringStep::Send(_) => vstd::pervasive::unreached(),
            },
        },
    }
}

impl FilteringBehaviorProcedure {
    /// What a run records in each state: Test1's mapped address exactly once
    /// Test1 has been answered.
    pub open spec fn wf(self) -> bool {
        match self.state {
            FilteringState::AwaitingTest1 => self.xor_mapped_addr is None,
            FilteringState::AwaitingTest2 => self.xor_mapped_addr is Some,
            FilteringState::AwaitingTest3 => self.xor_mapped_addr is Some,
            FilteringState::Finished => true,
        }
    }

    /// The state `new` returns: nothing recorded, Test1 in flight.
    pub open spec fn initial(stun_addr: SocketAddress) -> FilteringBehaviorProcedure {
        FilteringBehaviorProcedure {
            stun_addr,
            state: FilteringState::AwaitingTest1,
            xor_mapped_addr: None,
        }
    }

    /// Start the procedure against `stun_addr`. Returns the procedure and
    /// Test1's Binding request: to the server, with no extra attributes.
    pub fn new(stun_addr: SocketAddress) -> (r: (FilteringBehaviorProcedure, BindingRequest))
        ensures
            r.0 == FilteringBehaviorProcedure::initial(stun_addr),
            r.0.wf(),
            r.1 == (BindingRequest {
                target: stun_addr,
                change_request: None::<ChangeRequestFlags>,
            }),
    {
        (
            FilteringBehaviorProcedure {
                stun_addr,
                state: FilteringState::AwaitingTest1,
                xor_mapped_addr: None,
            },
            BindingRequest { target: stun_addr, change_request: None },
        )
    }

    /// Whether the run is over; `handle_response` must not be called again
    /// once it is.
    pub fn is_finished(&self) -> (r: bool)
        ensures
            r == (self.state is Finished),
    {
        matches!(self.state, FilteringState::Finished)
    }

    /// Consume the outcome of the Binding request handed out last, and either
    /// hand out the next request or finish. The step taken is exactly
    /// [`filtering_transition`]; a successful result always carries a
    /// definite classification and Test1's mapped address.
    pub fn handle_response<E>(
        &mut self,
        outcome: Result<BindingResponse, StunClientError<E>>,
    ) -> (step: FilteringStep<E>)
        requires
            !(old(self).state is Finished),
        ensures
            (*final(self), step) == filtering_transition(*old(self), outcome),
            old(self).wf() ==> final(self).wf(),
            final(self).stun_addr == old(self).stun_addr,
            step is Finished <==> final(self).state is Finished,
            old(self).wf() ==> (step matches FilteringStep::Finished(Ok(res)) ==> {
                &&& res.filtering_type != NATFilteringType::Unknown
                &&& res.xor_mapped_addr is Some
            }),
    {
        match self.state {
            FilteringState::AwaitingTest1 => match outcome {
                Err(e) => {
                    self.state = FilteringState::Finished;
                    FilteringStep::Finished(Err(e))
                },
                Ok(resp) => match resp.xor_mapped_addr {
                    None => {
                        self.state = FilteringState::Finished;
                        FilteringStep::Finished(
                            Err(StunClientError::NotSupported(StunAttribute::XorMappedAddress)),
                        )
                    },
                    Some(mapped) => {
                        self.xor_mapped_addr = Some(mapped);
                        self.state = FilteringState::AwaitingTest2;
                        FilteringStep::Send(
                            BindingRequest {
                                target: self.stun_addr,
                                change_request: Some(
                                    ChangeRequestFlags { change_ip: true, change_port: true },
                                ),
                            },
                        )
                    },
                },
            },
            FilteringState::AwaitingTest2 => match outcome {
                Ok(_) => {
                    self.state = FilteringState::Finished;
                    FilteringStep::Finished(
                        Ok(self.snapshot(NATFilteringType::EndpointIndependent)),
                    )
                },
                Err(e) => match e {
                    StunClientError::Timeout => {
                        self.state = FilteringState::AwaitingTest3;
                        FilteringStep::Send(
                            BindingRequest {
                                target: self.stun_addr,
                                change_request: Some(
                                    ChangeRequestFlags { change_ip: false, change_port: true },
                                ),
                            },
                        )
                    },
                    _ => {
                        self.state = FilteringState::Finished;
                        FilteringStep::Finished(Err(e))
                    },
                },
            },
            FilteringState::AwaitingTest3 => match outcome {
                Ok(_) => {
                    self.state = FilteringState::Finished;
                    FilteringStep::Finished(Ok(self.snapshot(NATFilteringType::AddressDependent)))
                },
                Err(e) => match e {
                    StunClientError::Timeout => {
                        self.state = FilteringState::Finished;
                        FilteringStep::Finished(
                            Ok(self.snapshot(NATFilteringType::AddressAndPortDependent)),
                        )
                    },
                    _ => {
                        self.state = FilteringState::Finished;
                        FilteringStep::Finished(Err(e))
                    },
                },
            },
            FilteringState::Finished => vstd::pervasive::unreached(),
        }
    }

    /// The result reporting the recorded mapped address with classification
    /// `filtering_type`.
    fn snapshot(&self, filtering_type: NATFilteringType) -> (r: NATFilteringTypeResult)
        ensures
            r == filtering_result_with(*self, filtering_type),
    {
        NATFilteringTypeResult { xor_mapped_addr: self.xor_mapped_addr, filtering_type }
    }
}

/// A Test1 response that lacks XOR-MAPPED-ADDRESS fails the run at once with
/// `NotSupported` naming XOR-MAPPED-ADDRESS, and no further exchange is
/// asked for.
pub proof fn lemma_filtering_missing_xor_mapped_address_fails<E>(
    stun_addr: SocketAddress,
    resp: BindingResponse,
    test2_outcome: Result<BindingResponse, StunClientError<E>>,
    test3_outcome: Result<BindingResponse, StunClientError<E>>,
)
    requires
        resp.xor_mapped_addr is None,
    ensures
        ({
            let (m1, s1) = filtering_transition::<E>(
                FilteringBehaviorProcedure::initial(stun_addr),
                Ok(resp),
            );
            s1 == FilteringStep::<E>::Finished(
                Err(StunClientError::NotSupported(StunAttribute::XorMappedAddress)),
            )
        }),
        filtering_outcome(stun_addr, Ok(resp), test2_outcome, test3_outcome) == Err::<
            NATFilteringTypeResult,
            StunClientError<E>,
        >(StunClientError::NotSupported(StunAttribute::XorMappedAddress)),
{
}

/// Any response to Test2 — whatever it carries — classifies the NAT as
/// `EndpointIndependent`, reporting Test1's mapped address.
pub proof fn lemma_filtering_test2_response_endpoint_independent<E>(
    stun_addr: SocketAddress,
    resp1: BindingResponse,
    test2_outcome: Result<BindingResponse, StunClientError<E>>,
    test3_outcome: Result<BindingResponse, StunClientError<E>>,
)
    requires
        resp1.xor_mapped_addr is Some,
        test2_outcome is Ok,
    ensures
        filtering_outcome(stun_addr, Ok(resp1), test2_outcome, test3_outcome) == Ok::<
            NATFilteringTypeResult,
            StunClientError<E>,
        >(NATFilteringTypeResult {
            xor_mapped_addr: resp1.xor_mapped_addr,
            filtering_type: NATFilteringType::EndpointIndependent,
        }),
{
}

/// A Test2 timeout followed by any response to Test3 classifies the NAT as
/// `AddressDependent`; Test3 asks for a changed port only.
pub proof fn lemma_filtering_test2_timeout_test3_response_address_dependent<E>(
    stun_addr: SocketAddress,
    resp1: BindingResponse,
    test2_outcome: Result<BindingResponse, StunClientError<E>>,
    test3_outcome: Result<BindingResponse, StunClientError<E>>,
)
    requires
        resp1.xor_mapped_addr is Some,
        test2_outcome matches Err(e2) && e2 is Timeout,
        test3_outcome is Ok,
    ensures
        ({
            let (m1, s1) = filtering_transition::<E>(
                FilteringBehaviorProcedure::initial(stun_addr),
                Ok(resp1),
            );
            let (m2, s2) = filtering_transition::<E>(m1, test2_outcome);
            s2 == FilteringStep::<E>::Send(filtering_test3_request(stun_addr))
        }),
        filtering_outcome(stun_addr, Ok(resp1), test2_outcome, test3_outcome) == Ok::<
            NATFilteringTypeResult,
            StunClientError<E>,
        >(NATFilteringTypeResult {
            xor_mapped_addr: resp1.xor_mapped_addr,
            filtering_type: NATFilteringType::AddressDependent,
        }),
{
}

/// Timeouts on both Test2 and Test3 classify the NAT as
/// `AddressAndPortDependent`.
pub proof fn lemma_filtering_both_timeouts_address_and_port_dependent<E>(
    stun_addr: SocketAddress,
    resp1: BindingResponse,
    test2_outcome: Result<BindingResponse, StunClientError<E>>,
    test3_outcome: Result<BindingResponse, StunClientError<E>>,
)
    requires
        resp1.xor_mapped_addr is Some,
        test2_outcome matches Err(e2) && e2 is Timeout,
        test3_outcome matches Err(e3) && e3 is Timeout,
    ensures
        filtering_outcome(stun_addr, Ok(resp1), test2_outcome, test3_outcome) == Ok::<
            NATFilteringTypeResult,
            StunClientError<E>,
        >(NATFilteringTypeResult {
            xor_mapped_addr: resp1.xor_mapped_addr,
            filtering_type: NATFilteringType::AddressAndPortDependent,
        }),
{
}

/// A Test2 failure other than a timeout propagates unchanged, and Test3 is
/// never attempted: the second transition finishes the run.
pub proof fn lemma_filtering_test2_other_error_propagates<E>(
    stun_addr: SocketAddress,
    resp1: BindingResponse,
    test2_outcome: Result<BindingResponse, StunClientError<E>>,
    test3_outcome: Result<BindingResponse, StunClientError<E>>,
)
    requires
        resp1.xor_mapped_addr is Some,
        test2_outcome matches Err(e2) && !(e2 is Timeout),
    ensures
        ({
            let (m1, s1) = filtering_transition::<E>(
                FilteringBehaviorProcedure::initial(stun_addr),
                Ok(resp1),
            );
            let (m2, s2) = filtering_transition::<E>(m1, test2_outcome);
            &&& s2 is Finished
            &&& m2.state is Finished
        }),
        test2_outcome matches Err(e2) ==> filtering_outcome(
            stun_addr,
            Ok(resp1),
            test2_outcome,
            test3_outcome,
        ) == Err::<NATFilteringTypeResult, StunClientError<E>>(e2),
{
}

/// Against a NAT and server whose behavior is stable, running the procedure
/// twice classifies the filtering the same way: the classification depends
/// only on whether Test2 and Test3 were answered or timed out, never on the
/// addresses observed.
pub proof fn lemma_filtering_classification_stable<E>(
    stun_addr_a: SocketAddress,
    ra1: BindingResponse,
    oa2: Result<BindingResponse, StunClientError<E>>,
    oa3: Result<BindingResponse, StunClientError<E>>,
    stun_addr_b: SocketAddress,
    rb1: BindingResponse,
    ob2: Result<BindingResponse, StunClientError<E>>,
    ob3: Result<BindingResponse, StunClientError<E>>,
)
    requires
        ra1.xor_mapped_addr is Some,
        rb1.xor_mapped_addr is Some,
        oa2 is Ok || (oa2 matches Err(e) && e is Timeout),
        ob2 is Ok || (ob2 matches Err(e) && e is Timeout),
        oa3 is Ok || (oa3 matches Err(e) && e is Timeout),
        ob3 is Ok || (ob3 matches Err(e) && e is Timeout),
        oa2 is Ok <==> ob2 is Ok,
        oa3 is Ok <==> ob3 is Ok,
    ensures
        ({
            let a = filtering_outcome::<E>(stun_addr_a, Ok(ra1), oa2, oa3);
            let b = filtering_outcome::<E>(stun_addr_b, Ok(rb1), ob2, ob3);
            &&& a matches Ok(res_a) && b matches Ok(res_b) && res_a.filtering_type
                == res_b.filtering_type
        }),
{
}

} // verus!
