//! Classification of a NAT's mapping behavior (RFC 5780, section 4.3).
//!
//! The procedure runs up to three Binding requests:
//!
//! 1. **Test1** to the server itself. The response must carry OTHER-ADDRESS
//!    and XOR-MAPPED-ADDRESS; if the mapped address is one of the caller's
//!    own interface addresses there is no NAT at all.
//! 2. **Test2** to the OTHER-ADDRESS. An unchanged mapped address means the
//!    mapping is endpoint-independent.
//! 3. **Test3** to the server's IP combined with the OTHER-ADDRESS port. A
//!    mapped address equal to Test2's means the mapping depends on the
//!    destination address only; otherwise it depends on address and port.
//!
//! The network is the caller's: [`MappingBehaviorProcedure`] is a state
//! machine that hands out each Binding request and consumes its outcome. Each
//! transition is pinned exactly by [`mapping_transition`].

use vstd::prelude::*;
use crate::addr::IpAddress;
use crate::addr::SocketAddress;
use crate::addr::contains_ip;
use crate::stun::BindingRequest;
use crate::stun::BindingResponse;
use crate::stun::ChangeRequestFlags;
use crate::stun::StunAttribute;
use crate::stun::StunClientError;

verus! {

/// A NAT type by mapping behavior.
#[derive(Clone, Copy, Debug, PartialEq, Eq, Structural)]
pub enum NATMappingType {
    /// The Test1 mapped address is a local interface address: no NAT.
    NoNAT,
    /// The same external mapping is used for every destination.
    EndpointIndependent,
    /// The mapping changes with the destination IP but not with its port.
    AddressDependent,
    /// The mapping changes with both the destination IP and its port.
    AddressAndPortDependent,
    /// The placeholder before the decision tree completes; never part of a
    /// successful result.
    Unknown,
}

/// What a run of the mapping procedure observed: the mapped address of each
/// test that received a response, and the classification.
#[derive(Clone, Copy, Debug, PartialEq, Eq)]
pub struct NATMappingTypeResult {
    pub test1_xor_mapped_addr: Option<SocketAddress>,
    pub test2_xor_mapped_addr: Option<SocketAddress>,
    pub test3_xor_mapped_addr: Option<SocketAddress>,
    pub mapping_type: NATMappingType,
}

/// Which Binding request the mapping procedure is waiting on.
#[derive(Clone, Copy, Debug)]
pub enum MappingState {
    AwaitingTest1,
    AwaitingTest2 { other_addr: SocketAddress },
    AwaitingTest3,
    Finished,
}

/// The mapping procedure between two Binding requests.
///
/// `new` hands out Test1's request; each `handle_response` consumes one
/// outcome and either hands out the next request or finishes.
pub struct MappingBehaviorProcedure {
    pub stun_addr: SocketAddress,
    pub local_ips: Vec<IpAddress>,
    pub state: MappingState,
    pub test1_xor_mapped_addr: Option<SocketAddress>,
    pub test2_xor_mapped_addr: Option<SocketAddress>,
    pub test3_xor_mapped_addr: Option<SocketAddress>,
}

/// What the mapping procedure asks of its caller after consuming an outcome.
#[derive(Debug, PartialEq, Eq)]
pub enum MappingStep<E> {
    /// Send this Binding request and hand back its outcome.
    Send(BindingRequest),
    /// The procedure is over with this result.
    Finished(Result<NATMappingTypeResult, StunClientError<E>>),
}

/// The result a finishing procedure reports: the addresses recorded so far
/// and the classification it decided on.
pub open spec fn result_with(m: MappingBehaviorProcedure, t: NATMappingType) -> NATMappingTypeResult {
    NATMappingTypeResult {
        test1_xor_mapped_addr: m.test1_xor_mapped_addr,
        test2_xor_mapped_addr: m.test2_xor_mapped_addr,
        test3_xor_mapped_addr: m.test3_xor_mapped_addr,
        mapping_type: t,
    }
}

/// `m` with its state closed; everything recorded stays as it is.
pub open spec fn mapping_finished(m: MappingBehaviorProcedure) -> MappingBehaviorProcedure {
    MappingBehaviorProcedure { state: MappingState::Finished, ..m }
}

/// Test1's decision: require OTHER-ADDRESS, then XOR-MAPPED-ADDRESS; finish
/// with `NoNAT` when the mapped address is local, else send Test2 to the
/// OTHER-ADDRESS.
pub open spec fn mapping_transition_test1<E>(
    pre: MappingBehaviorProcedure,
    resp: BindingResponse,
) -> (MappingBehaviorProcedure, MappingStep<E>) {
    match resp.other_addr {
        None => (
            mapping_finished(pre),
            MappingStep::Finished(Err(StunClientError::NotSupported(StunAttribute::OtherAddress))),
        ),
        Some(other) => match resp.xor_mapped_addr {
            None => (
                mapping_finished(pre),
                MappingStep::Finished(
                    Err(StunClientError::NotSupported(StunAttribute::XorMappedAddress)),
                ),
            ),
            Some(mapped) => {
                let recorded = MappingBehaviorProcedure {
                    test1_xor_mapped_addr: Some(mapped),
                    ..pre
                };
                if pre.local_ips@.contains(mapped.ip) {
                    (
                        mapping_finished(recorded),
                        MappingStep::Finished(Ok(result_with(recorded, NATMappingType::NoNAT))),
                    )
                } else {
                    (
                        MappingBehaviorProcedure {
                            state: MappingState::AwaitingTest2 { other_addr: other },
                            ..recorded
                        },
                        MappingStep::Send(
                            BindingRequest { target: other, change_request: None },
                        ),
                    )
                }
            },
        },
    }
}

/// Test2's decision: require XOR-MAPPED-ADDRESS; finish with
/// `EndpointIndependent` when it equals Test1's, else send Test3 to the
/// server's IP with the OTHER-ADDRESS port.
pub open spec fn mapping_transition_test2<E>(
    pre: MappingBehaviorProcedure,
    other_addr: SocketAddress,
    resp: BindingResponse,
) -> (MappingBehaviorProcedure, MappingStep<E>) {
    match resp.xor_mapped_addr {
        None => (
            mapping_finished(pre),
            MappingStep::Finished(
                Err(StunClientError::NotSupported(StunAttribute::XorMappedAddress)),
            ),
        ),
        Some(mapped) => {
            let recorded = MappingBehaviorProcedure {
                test2_xor_mapped_addr: Some(mapped),
                ..pre
            };
            if pre.test1_xor_mapped_addr == Some(mapped) {
                (
                    mapping_finished(recorded),
                    MappingStep::Finished(
                        Ok(result_with(recorded, NATMappingType::EndpointIndependent)),
                    ),
                )
            } else {
                (
                    MappingBehaviorProcedure { state: MappingState::AwaitingTest3, ..recorded },
                    MappingStep::Send(
                        BindingRequest {
                            target: SocketAddress { ip: pre.stun_addr.ip, port: other_addr.port },
                            change_request: None,
                        },
                    ),
                )
            }
        },
    }
}

/// Test3's decision: require XOR-MAPPED-ADDRESS; a mapped address equal to
/// Test2's means `AddressDependent`, anything else `AddressAndPortDependent`.
pub open spec fn mapping_transition_test3<E>(
    pre: MappingBehaviorProcedure,
    resp: BindingResponse,
) -> (MappingBehaviorProcedure, MappingStep<E>) {
    match resp.xor_mapped_addr {
        None => (
            mapping_finished(pre),
            MappingStep::Finished(
                Err(StunClientError::NotSupported(StunAttribute::XorMappedAddress)),
            ),
        ),
        Some(mapped) => {
            let recorded = MappingBehaviorProcedure {
                test3_xor_mapped_addr: Some(mapped),
                ..pre
            };
            if pre.test2_xor_mapped_addr == Some(mapped) {
                (
                    mapping_finished(recorded),
                    MappingStep::Finished(
                        Ok(result_with(recorded, NATMappingType::AddressDependent)),
                    ),
                )
            } else {
                (
                    mapping_finished(recorded),
                    MappingStep::Finished(
                        Ok(result_with(recorded, NATMappingType::AddressAndPortDependent)),
                    ),
                )
            }
        },
    }
}

/// One step of the mapping procedure: any error ends the run with that error
/// unchanged (a timeout carries no meaning here); a response drives the
/// decision of whichever test was awaited.
pub open spec fn mapping_transition<E>(
    pre: MappingBehaviorProcedure,
    outcome: Result<BindingResponse, StunClientError<E>>,
) -> (MappingBehaviorProcedure, MappingStep<E>) {
    match outcome {
        Err(e) => (mapping_finished(pre), MappingStep::Finished(Err(e))),
        Ok(resp) => match pre.state {
            MappingState::AwaitingTest1 => mapping_transition_test1(pre, resp),
            MappingState::AwaitingTest2 { other_addr } => mapping_transition_test2(
                pre,
                other_addr,
                resp,
            ),
            MappingState::AwaitingTest3 => mapping_transition_test3(pre, resp),
            MappingState::Finished => (pre, arbitrary()),
        },
    }
}

/// The result of the whole mapping procedure when the three tests would come
/// out as `test1_outcome`, `test2_outcome` and `test3_outcome`: the
/// transitions composed, each outcome consumed only as far as the run gets.
pub open spec fn mapping_outcome<E>(
    stun_addr: SocketAddress,
    local_ips: Vec<IpAddress>,
    test1_outcome: Result<BindingResponse, StunClientError<E>>,
    test2_outcome: Result<BindingResponse, StunClientError<E>>,
    test3_outcome: Result<BindingResponse, StunClientError<E>>,
) -> Result<NATMappingTypeResult, StunClientError<E>> {
    let (m1, s1) = mapping_transition(
        MappingBehaviorProcedure::initial(stun_addr, local_ips),
        test1_outcome,
    );
    match s1 {
        MappingStep::Finished(r) => r,
        MappingStep::Send(_) => {
            let (m2, s2) = mapping_transition(m1, test2_outcome);
            match s2 {
                MappingStep::Finished(r) => r,
                MappingStep::Send(_) => {
                    let (m3, s3) = mapping_transition(m2, test3_outcome);
                    match s3 {
                        MappingStep::Finished(r) => r,
                        MappingStep::Send(_) => arbitrary(),
                    }
                },
            }
        },
    }
}

/// Check NAT mapping behavior: run the whole procedure against the given
/// test outcomes.
///
/// The outcomes stand for what the caller's transport would answer to Test1,
/// Test2 and Test3; the run short-circuits exactly as the step-by-step
/// procedure does, so a later outcome is ignored whenever an earlier test
/// already settled the classification. The mapped addresses present in a
/// successful result tell how many exchanges took place.
pub fn check_nat_mapping_behavior<E>(
    stun_addr: SocketAddress,
    local_ips: Vec<IpAddress>,
    test1_outcome: Result<BindingResponse, StunClientError<E>>,
    test2_outcome: Result<BindingResponse, StunClientError<E>>,
    test3_outcome: Result<BindingResponse, StunClientError<E>>,
) -> (r: Result<NATMappingTypeResult, StunClientError<E>>)
    ensures
        r == mapping_outcome(stun_addr, local_ips, test1_outcome, test2_outcome, test3_outcome),
        r matches Ok(res) ==> {
            &&& res.mapping_type != NATMappingType::Unknown
            &&& res.test1_xor_mapped_addr is Some
            &&& res.mapping_type == NATMappingType::NoNAT ==> res.test2_xor_mapped_addr is None
                && res.test3_xor_mapped_addr is None
            &&& res.mapping_type == NATMappingType::EndpointIndependent
                ==> res.test2_xor_mapped_addr is Some && res.test3_xor_mapped_addr is None
            &&& res.mapping_type == NATMappingType::AddressDependent
                || res.mapping_type == NATMappingType::AddressAndPortDependent
                ==> res.test2_xor_mapped_addr is Some && res.test3_xor_mapped_addr is Some
        },
{
    let (mut procedure, _request) = MappingBehaviorProcedure::new(stun_addr, local_ips);
    match procedure.handle_response(test1_outcome) {
        MappingStep::Finished(r) => r,
        MappingStep::Send(_) => match procedure.handle_response(test2_outcome) {
            MappingStep::Finished(r) => r,
            MappingStep::Send(_) => match procedure.handle_response(test3_outcome) {
                MappingStep::Finished(r) => r,
                MappingStep::Send(_) => vstd::pervasive::unreached(),
            },
        },
    }
}

impl MappingBehaviorProcedure {
    /// What a run records in each state: an address exactly for every test
    /// that was sent and answered, and never a local Test1 address or an
    /// unchanged Test2 address once the run went past that decision.
    pub open spec fn wf(self) -> bool {
        match self.state {
            MappingState::AwaitingTest1 => {
                &&& self.test1_xor_mapped_addr is None
                &&& self.test2_xor_mapped_addr is None
                &&& self.test3_xor_mapped_addr is None
            },
            MappingState::AwaitingTest2 { other_addr } => {
                &&& self.test1_xor_mapped_addr matches Some(a1)
                    && !self.local_ips@.contains(a1.ip)
                &&& self.test2_xor_mapped_addr is None
                &&& self.test3_xor_mapped_addr is None
            },
            MappingState::AwaitingTest3 => {
                &&& self.test1_xor_mapped_addr is Some
                &&& self.test2_xor_mapped_addr is Some
                &&& self.test1_xor_mapped_addr != self.test2_xor_mapped_addr
                &&& self.test3_xor_mapped_addr is None
            },
            MappingState::Finished => true,
        }
    }

    /// The state `new` returns: nothing recorded, Test1 in flight.
    pub open spec fn initial(
        stun_addr: SocketAddress,
        local_ips: Vec<IpAddress>,
    ) -> MappingBehaviorProcedure {
        MappingBehaviorProcedure {
            stun_addr,
            local_ips,
            state: MappingState::AwaitingTest1,
            test1_xor_mapped_addr: None,
            test2_xor_mapped_addr: None,
            test3_xor_mapped_addr: None,
        }
    }

    /// Start the procedure against `stun_addr`. `local_ips` are the caller's
    /// own interface addresses, the oracle for the no-NAT short-circuit.
    /// Returns the procedure and Test1's Binding request: to the server, with
    /// no extra attributes.
    pub fn new(stun_addr: SocketAddress, local_ips: Vec<IpAddress>) -> (r: (
        MappingBehaviorProcedure,
        BindingRequest,
    ))
        ensures
            r.0 == MappingBehaviorProcedure::initial(stun_addr, local_ips),
            r.0.wf(),
            r.1 == (BindingRequest {
                target: stun_addr,
                change_request: None::<ChangeRequestFlags>,
            }),
    {
        (
            MappingBehaviorProcedure {
                stun_addr,
                local_ips,
                state: MappingState::AwaitingTest1,
                test1_xor_mapped_addr: None,
                test2_xor_mapped_addr: None,
                test3_xor_mapped_addr: None,
            },
            BindingRequest { target: stun_addr, change_request: None },
        )
    }

    /// Whether the run is over; `handle_response` must not be called again
    /// once it is.
    pub fn is_finished(&self) -> (r: bool)
        ensures
            r == (self.state is Finished),
    {
        matches!(self.state, MappingState::Finished)
    }

    /// Consume the outcome of the Binding request handed out last, and either
    /// hand out the next request or finish. The step taken is exactly
    /// [`mapping_transition`]; a successful result always carries a definite
    /// classification and Test1's mapped address.
    pub fn handle_response<E>(
        &mut self,
        outcome: Result<BindingResponse, StunClientError<E>>,
    ) -> (step: MappingStep<E>)
        requires
            !(old(self).state is Finished),
        ensures
            (*final(self), step) == mapping_transition(*old(self), outcome),
            old(self).wf() ==> final(self).wf(),
            final(self).stun_addr == old(self).stun_addr,
            final(self).local_ips == old(self).local_ips,
            step is Finished <==> final(self).state is Finished,
            old(self).wf() ==> (step matches MappingStep::Finished(Ok(res)) ==> {
                &&& res.mapping_type != NATMappingType::Unknown
                &&& res.test1_xor_mapped_addr is Some
            }),
    {
        match outcome {
            Err(e) => {
                self.state = MappingState::Finished;
                MappingStep::Finished(Err(e))
            },
            Ok(resp) => match self.state {
                MappingState::AwaitingTest1 => {
                    match resp.other_addr {
                        None => {
                            self.state = MappingState::Finished;
                            MappingStep::Finished(
                                Err(StunClientError::NotSupported(StunAttribute::OtherAddress)),
                            )
                        },
                        Some(other) => match resp.xor_mapped_addr {
                            None => {
                                self.state = MappingState::Finished;
                                MappingStep::Finished(
                                    Err(
                                        StunClientError::NotSupported(
                                            StunAttribute::XorMappedAddress,
                                        ),
                                    ),
                                )
                            },
                            Some(mapped) => {
                                self.test1_xor_mapped_addr = Some(mapped);
                                if contains_ip(&self.local_ips, mapped.ip) {
                                    self.state = MappingState::Finished;
                                    MappingStep::Finished(
                                        Ok(self.snapshot(NATMappingType::NoNAT)),
                                    )
                                } else {
                                    self.state = MappingState::AwaitingTest2 { other_addr: other };
                                    MappingStep::Send(
                                        BindingRequest { target: other, change_request: None },
                                    )
                                }
                            },
                        },
                    }
                },
                MappingState::AwaitingTest2 { other_addr } => {
                    match resp.xor_mapped_addr {
                        None => {
                            self.state = MappingState::Finished;
                            MappingStep::Finished(
                                Err(StunClientError::NotSupported(StunAttribute::XorMappedAddress)),
                            )
                        },
                        Some(mapped) => {
                            let same = match self.test1_xor_mapped_addr {
                                Some(a1) => a1 == mapped,
                                None => false,
                            };
                            self.test2_xor_mapped_addr = Some(mapped);
                            if same {
                                self.state = MappingState::Finished;
                                MappingStep::Finished(
                                    Ok(self.snapshot(NATMappingType::EndpointIndependent)),
                                )
                            } else {
                                self.state = MappingState::AwaitingTest3;
                                MappingStep::Send(
                                    BindingRequest {
                                        target: SocketAddress {
                                            ip: self.stun_addr.ip,
                                            port: other_addr.port,
                                        },
                                        change_request: None,
                                    },
                                )
                            }
                        },
                    }
                },
                MappingState::AwaitingTest3 => {
                    match resp.xor_mapped_addr {
                        None => {
                            self.state = MappingState::Finished;
                            MappingStep::Finished(
                                Err(StunClientError::NotSupported(StunAttribute::XorMappedAddress)),
                            )
                        },
                        Some(mapped) => {
                            let same = match self.test2_xor_mapped_addr {
                                Some(a2) => a2 == mapped,
                                None => false,
                            };
                            self.test3_xor_mapped_addr = Some(mapped);
                            self.state = MappingState::Finished;
                            if same {
                                MappingStep::Finished(
                                    Ok(self.snapshot(NATMappingType::AddressDependent)),
                                )
                            } else {
                                MappingStep::Finished(
                                    Ok(self.snapshot(NATMappingType::AddressAndPortDependent)),
                                )
                            }
                        },
                    }
                },
                MappingState::Finished => vstd::pervasive::unreached(),
            },
        }
    }

    /// The result reporting everything recorded so far with classification
    /// `mapping_type`.
    fn snapshot(&self, mapping_type: NATMappingType) -> (r: NATMappingTypeResult)
        ensures
            r == result_with(*self, mapping_type),
    {
        NATMappingTypeResult {
            test1_xor_mapped_addr: self.test1_xor_mapped_addr,
            test2_xor_mapped_addr: self.test2_xor_mapped_addr,
            test3_xor_mapped_addr: self.test3_xor_mapped_addr,
            mapping_type,
        }
    }
}

/// For a server whose Test1 response carries an XOR-MAPPED-ADDRESS equal to
/// one of the caller's own interface addresses, the procedure classifies
/// `NoNAT` after the single initial exchange: the first transition finishes
/// the run, so no later outcome is consumed and no further request is sent.
pub proof fn lemma_mapping_no_nat_single_exchange<E>(
    stun_addr: SocketAddress,
    local_ips: Vec<IpAddress>,
    resp: BindingResponse,
    test2_outcome: Result<BindingResponse, StunClientError<E>>,
    test3_outcome: Result<BindingResponse, StunClientError<E>>,
)
    requires
        resp.other_addr is Some,
        resp.xor_mapped_addr matches Some(mapped) && local_ips@.contains(mapped.ip),
    ensures
        ({
            let (m1, s1) = mapping_transition::<E>(
                MappingBehaviorProcedure::initial(stun_addr, local_ips),
                Ok(resp),
            );
            s1 == MappingStep::<E>::Finished(Ok(NATMappingTypeResult {
                test1_xor_mapped_addr: resp.xor_mapped_addr,
                test2_xor_mapped_addr: None,
                test3_xor_mapped_addr: None,
                mapping_type: NATMappingType::NoNAT,
            }))
        }),
        mapping_outcome(stun_addr, local_ips, Ok(resp), test2_outcome, test3_outcome) == Ok::<
            NATMappingTypeResult,
            StunClientError<E>,
        >(NATMappingTypeResult {
            test1_xor_mapped_addr: resp.xor_mapped_addr,
            test2_xor_mapped_addr: None,
            test3_xor_mapped_addr: None,
            mapping_type: NATMappingType::NoNAT,
        }),
{
}

/// For a Test1/Test2 pair with identical mapped socket addresses, the
/// procedure classifies `EndpointIndependent` after exactly two exchanges:
/// the first transition asks for Test2 — addressed to the OTHER-ADDRESS —
/// and the second finishes the run, so Test3 is never sent and the third
/// outcome is never consumed.
pub proof fn lemma_mapping_endpoint_independent_two_exchanges<E>(
    stun_addr: SocketAddress,
    local_ips: Vec<IpAddress>,
    resp1: BindingResponse,
    resp2: BindingResponse,
    test3_outcome: Result<BindingResponse, StunClientError<E>>,
)
    requires
        resp1.other_addr is Some,
        resp1.xor_mapped_addr matches Some(mapped1) && !local_ips@.contains(mapped1.ip),
        resp2.xor_mapped_addr == resp1.xor_mapped_addr,
    ensures
        ({
            let (m1, s1) = mapping_transition::<E>(
                MappingBehaviorProcedure::initial(stun_addr, local_ips),
                Ok(resp1),
            );
            let (m2, s2) = mapping_transition::<E>(m1, Ok(resp2));
            &&& s1 matches MappingStep::Send(req) && resp1.other_addr matches Some(other)
                && req == (BindingRequest { target: other, change_request: None })
            &&& s2 == MappingStep::<E>::Finished(Ok(NATMappingTypeResult {
                test1_xor_mapped_addr: resp1.xor_mapped_addr,
                test2_xor_mapped_addr: resp2.xor_mapped_addr,
                test3_xor_mapped_addr: None,
                mapping_type: NATMappingType::EndpointIndependent,
            }))
        }),
        mapping_outcome(stun_addr, local_ips, Ok(resp1), Ok(resp2), test3_outcome) == Ok::<
            NATMappingTypeResult,
            StunClientError<E>,
        >(NATMappingTypeResult {
            test1_xor_mapped_addr: resp1.xor_mapped_addr,
            test2_xor_mapped_addr: resp2.xor_mapped_addr,
            test3_xor_mapped_addr: None,
            mapping_type: NATMappingType::EndpointIndependent,
        }),
{
}

/// For a Test1/Test2 pair with differing mapped addresses whose Test3 mapped
/// address equals Test2's, the procedure classifies `AddressDependent` after
/// exactly three exchanges, Test3 being addressed to the server's IP with
/// the OTHER-ADDRESS port.
pub proof fn lemma_mapping_address_dependent_three_exchanges<E>(
    stun_addr: SocketAddress,
    local_ips: Vec<IpAddress>,
    resp1: BindingResponse,
    resp2: BindingResponse,
    resp3: BindingResponse,
)
    requires
        resp1.other_addr is Some,
        resp1.xor_mapped_addr matches Some(mapped1) && !local_ips@.contains(mapped1.ip),
        resp2.xor_mapped_addr is Some,
        resp2.xor_mapped_addr != resp1.xor_mapped_addr,
        resp3.xor_mapped_addr == resp2.xor_mapped_addr,
    ensures
        ({
            let (m1, s1) = mapping_transition::<E>(
                MappingBehaviorProcedure::initial(stun_addr, local_ips),
                Ok(resp1),
            );
            let (m2, s2) = mapping_transition::<E>(m1, Ok(resp2));
            let (m3, s3) = mapping_transition::<E>(m2, Ok(resp3));
            &&& s1 is Send
            &&& s2 matches MappingStep::Send(req) && resp1.other_addr matches Some(other)
                && req == (BindingRequest {
                    target: SocketAddress { ip: stun_addr.ip, port: other.port },
                    change_request: None,
                })
            &&& s3 == MappingStep::<E>::Finished(Ok(NATMappingTypeResult {
                test1_xor_mapped_addr: resp1.xor_mapped_addr,
                test2_xor_mapped_addr: resp2.xor_mapped_addr,
                test3_xor_mapped_addr: resp3.xor_mapped_addr,
                mapping_type: NATMappingType::AddressDependent,
            }))
        }),
        mapping_outcome::<E>(stun_addr, local_ips, Ok(resp1), Ok(resp2), Ok(resp3)) == Ok::<
            NATMappingTypeResult,
            StunClientError<E>,
        >(NATMappingTypeResult {
            test1_xor_mapped_addr: resp1.xor_mapped_addr,
            test2_xor_mapped_addr: resp2.xor_mapped_addr,
            test3_xor_mapped_addr: resp3.xor_mapped_addr,
            mapping_type: NATMappingType::AddressDependent,
        }),
{
}

/// For three pairwise distinct mapped addresses, the procedure classifies
/// `AddressAndPortDependent`.
pub proof fn lemma_mapping_pairwise_distinct_address_and_port_dependent<E>(
    stun_addr: SocketAddress,
    local_ips: Vec<IpAddress>,
    resp1: BindingResponse,
    resp2: BindingResponse,
    resp3: BindingResponse,
)
    requires
        resp1.other_addr is Some,
        resp1.xor_mapped_addr matches Some(mapped1) && !local_ips@.contains(mapped1.ip),
        resp2.xor_mapped_addr is Some,
        resp3.xor_mapped_addr is Some,
        resp1.xor_mapped_addr != resp2.xor_mapped_addr,
        resp2.xor_mapped_addr != resp3.xor_mapped_addr,
        resp1.xor_mapped_addr != resp3.xor_mapped_addr,
    ensures
        mapping_outcome::<E>(stun_addr, local_ips, Ok(resp1), Ok(resp2), Ok(resp3)) == Ok::<
            NATMappingTypeResult,
            StunClientError<E>,
        >(NATMappingTypeResult {
            test1_xor_mapped_addr: resp1.xor_mapped_addr,
            test2_xor_mapped_addr: resp2.xor_mapped_addr,
            test3_xor_mapped_addr: resp3.xor_mapped_addr,
            mapping_type: NATMappingType::AddressAndPortDependent,
        }),
{
}

/// A Test1 response that lacks XOR-MAPPED-ADDRESS — while carrying the
/// OTHER-ADDRESS the procedure requires first — fails the run at once with
/// `NotSupported` naming XOR-MAPPED-ADDRESS, and no further exchange is
/// asked for.
pub proof fn lemma_mapping_missing_xor_mapped_address_fails<E>(
    stun_addr: SocketAddress,
    local_ips: Vec<IpAddress>,
    resp: BindingResponse,
    test2_outcome: Result<BindingResponse, StunClientError<E>>,
    test3_outcome: Result<BindingResponse, StunClientError<E>>,
)
    requires
        resp.other_addr is Some,
        resp.xor_mapped_addr is None,
    ensures
        ({
            let (m1, s1) = mapping_transition::<E>(
                MappingBehaviorProcedure::initial(stun_addr, local_ips),
                Ok(resp),
            );
            s1 == MappingStep::<E>::Finished(
                Err(StunClientError::NotSupported(StunAttribute::XorMappedAddress)),
            )
        }),
        mapping_outcome(stun_addr, local_ips, Ok(resp), test2_outcome, test3_outcome) == Err::<
            NATMappingTypeResult,
            StunClientError<E>,
        >(StunClientError::NotSupported(StunAttribute::XorMappedAddress)),
{
}

/// Against a NAT and server whose behavior is stable, running the procedure
/// twice classifies the mapping the same way even when the observed mapped
/// addresses differ between the runs (as ephemeral ports may): the
/// classification depends only on whether Test1's address is local, whether
/// Test1's and Test2's agree, and whether Test2's and Test3's agree.
pub proof fn lemma_mapping_classification_stable<E>(
    stun_addr_a: SocketAddress,
    local_ips_a: Vec<IpAddress>,
    ra1: BindingResponse,
    ra2: BindingResponse,
    ra3: BindingResponse,
    stun_addr_b: SocketAddress,
    local_ips_b: Vec<IpAddress>,
    rb1: BindingResponse,
    rb2: BindingResponse,
    rb3: BindingResponse,
)
    requires
        ra1.other_addr is Some,
        rb1.other_addr is Some,
        ra1.xor_mapped_addr is Some,
        rb1.xor_mapped_addr is Some,
        ra2.xor_mapped_addr is Some,
        rb2.xor_mapped_addr is Some,
        ra3.xor_mapped_addr is Some,
        rb3.xor_mapped_addr is Some,
        ra1.xor_mapped_addr matches Some(ma1) && rb1.xor_mapped_addr matches Some(mb1)
            && (local_ips_a@.contains(ma1.ip) <==> local_ips_b@.contains(mb1.ip)),
        (ra1.xor_mapped_addr == ra2.xor_mapped_addr) <==> (rb1.xor_mapped_addr
            == rb2.xor_mapped_addr),
        (ra2.xor_mapped_addr == ra3.xor_mapped_addr) <==> (rb2.xor_mapped_addr
            == rb3.xor_mapped_addr),
    ensures
        ({
            let a = mapping_outcome::<E>(stun_addr_a, local_ips_a, Ok(ra1), Ok(ra2), Ok(ra3));
            let b = mapping_outcome::<E>(stun_addr_b, local_ips_b, Ok(rb1), Ok(rb2), Ok(rb3));
            &&& a matches Ok(res_a) && b matches Ok(res_b) && res_a.mapping_type
                == res_b.mapping_type
        }),
{
}

} // verus!
