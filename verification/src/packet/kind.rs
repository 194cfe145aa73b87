//! Whether an operation message is a request or a response.

use vstd::prelude::*;

verus! {

#[derive(Clone, Copy, Debug, PartialEq, Eq)]
pub enum OperationPacketKind {
    Request,
    Response,
}

#[derive(Clone, Copy, Debug, PartialEq, Eq)]
pub enum UnknownPacketKind {
    OperationRequest,
    OperationResponse,
    Event,
}

impl OperationPacketKind {
    /// The message type label of the kind: `operation_request` or `operation_response`.
    pub fn message_type(self) -> (r: &'static str)
        ensures
            r@ == (match self {
                OperationPacketKind::Request => "operation_request"@,
                OperationPacketKind::Response => "operation_response"@,
            }),
    {
        match self {
            OperationPacketKind::Request => "operation_request",
            OperationPacketKind::Response => "operation_response",
        }
    }

    /// The short label of the kind: `request` or `response`.
    pub fn as_str(self) -> (r: &'static str)
        ensures
            r@ == (match self {
                OperationPacketKind::Request => "request"@,
                OperationPacketKind::Response => "response"@,
            }),
    {
        match self {
            OperationPacketKind::Request => "request",
            OperationPacketKind::Response => "response",
        }
    }

    /// The kind under which an unclassifiable operation message is recorded.
    pub fn into_unknown_kind(self) -> (r: UnknownPacketKind)
        ensures
            r == (match self {
                OperationPacketKind::Request => UnknownPacketKind::OperationRequest,
                OperationPacketKind::Response => UnknownPacketKind::OperationResponse,
            }),
    {
        match self {
            OperationPacketKind::Request => UnknownPacketKind::OperationRequest,
            OperationPacketKind::Response => UnknownPacketKind::OperationResponse,
        }
    }
}

impl UnknownPacketKind {
    /// The kind's label: `operation_request`, `operation_response` or `event`.
    pub fn as_str(self) -> (r: &'static str)
        ensures
            r@ == (match self {
                UnknownPacketKind::OperationRequest => "operation_request"@,
                UnknownPacketKind::OperationResponse => "operation_response"@,
                UnknownPacketKind::Event => "event"@,
            }),
    {
        match self {
            UnknownPacketKind::OperationRequest => "operation_request",
            UnknownPacketKind::OperationResponse => "operation_response",
            UnknownPacketKind::Event => "event",
        }
    }
}

} // verus!
