//! The plain-value face of the STUN collaborator.
//!
//! The wire protocol itself — framing, attribute encoding, transport and
//! retransmission — belongs to the caller. The procedures here only ever see
//! what that collaborator extracted from a Binding response, and only ever ask
//! for a Binding request described by a target address and an optional pair of
//! CHANGE-REQUEST flags.

use vstd::prelude::*;
use crate::addr::SocketAddress;

verus! {

/// The STUN attributes that the discovery procedures read from or attach to
/// Binding requests.
#[derive(Clone, Copy, Debug, PartialEq, Eq, Structural)]
pub enum StunAttribute {
    XorMappedAddress,
    OtherAddress,
    ChangeRequest,
}

impl StunAttribute {
    /// The attribute's name as RFC 5780 spells it.
    pub open spec fn spec_name(self) -> Seq<char> {
        match self {
            StunAttribute::XorMappedAddress => "XOR-MAPPED-ADDRESS"@,
            StunAttribute::OtherAddress => "OTHER-ADDRESS"@,
            StunAttribute::ChangeRequest => "CHANGE-REQUEST"@,
        }
    }

    /// The attribute's name as RFC 5780 spells it.
    pub fn name(&self) -> (r: String)
        ensures
            r@ == self.spec_name(),
    {
        match self {
            StunAttribute::XorMappedAddress => "XOR-MAPPED-ADDRESS".to_owned(),
            StunAttribute::OtherAddress => "OTHER-ADDRESS".to_owned(),
            StunAttribute::ChangeRequest => "CHANGE-REQUEST".to_owned(),
        }
    }
}

/// The two flags of a CHANGE-REQUEST attribute: ask the server to reply from
/// a different IP, from a different port, or both.
#[derive(Clone, Copy, Debug, PartialEq, Eq, Structural)]
pub struct ChangeRequestFlags {
    pub change_ip: bool,
    pub change_port: bool,
}

/// One Binding request that a procedure asks its caller to send: where to
/// send it, and the CHANGE-REQUEST flags to attach, if any.
#[derive(Clone, Copy, Debug, PartialEq, Eq)]
pub struct BindingRequest {
    pub target: SocketAddress,
    pub change_request: Option<ChangeRequestFlags>,
}

/// What the caller extracted from one Binding response: the mapped address
/// from the XOR-MAPPED-ADDRESS attribute and the alternate server address
/// from the OTHER-ADDRESS attribute, each absent when the response lacks
/// that attribute.
#[derive(Clone, Copy, Debug, PartialEq, Eq)]
pub struct BindingResponse {
    pub xor_mapped_addr: Option<SocketAddress>,
    pub other_addr: Option<SocketAddress>,
}

/// How a Binding request, or a whole procedure, can fail.
///
/// `Other` carries the caller's transport or protocol error unchanged; the
/// procedures never retry and never reinterpret it. `Timeout` is the
/// transport's distinguished no-reply-within-the-window error: the filtering
/// procedure reads it as a classification signal, everywhere else it is
/// fatal and propagated like any other error.
#[derive(Clone, Copy, Debug, PartialEq, Eq)]
pub enum StunClientError<E> {
    /// No response arrived within the transport's timeout window.
    Timeout,
    /// The server's response lacks an attribute that the discovery method
    /// requires; the server does not meet the RFC 5780 prerequisite.
    NotSupported(StunAttribute),
    /// Any other transport or protocol failure, propagated unchanged.
    Other(E),
}

} // verus!
