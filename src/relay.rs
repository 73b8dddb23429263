//! The HTTP relay strategy: the purchase is posted to a second service, whose
//! status code and body decide the result.
use crate::status::{
    bridge_error_message, connect_error_message, decode_error_message, failure_model,
    StatusModel, StatusResult,
};
use vstd::prelude::*;

verus! {

/// Whether an HTTP status code is in the success class (2xx).
pub open spec fn is_success_code(code: u16) -> bool {
    200 <= code && code < 300
}

/// Tells whether an HTTP status code is in the success class (2xx), the
/// class that `http::StatusCode::is_success` tests for.
pub fn status_is_success(code: u16) -> (r: bool)
    ensures
        r == is_success_code(code),
{
    200 <= code && code < 300
}

/// What came of posting the purchase to the relay backend.
#[derive(Debug, Clone, Copy, PartialEq, Eq)]
pub enum SendOutcome {
    /// No response was obtained (connection refused, name not resolved, ...).
    Unreachable,
    /// The backend answered with this HTTP status code.
    Answered(u16),
}

/// What came of decoding the body of a 2xx answer from the relay backend.
#[derive(Debug, Clone, PartialEq, Eq)]
pub enum BodyOutcome {
    /// The body held the status message and, optionally, a success flag.
    Decoded { estado: String, exito: Option<bool> },
    /// The body was not a JSON object with a status message.
    Undecodable,
}

/// Mathematical model of a `BodyOutcome`.
pub enum BodyModel {
    Decoded { estado: Seq<char>, exito: Option<bool> },
    Undecodable,
}

impl View for BodyOutcome {
    type V = BodyModel;

    open spec fn view(&self) -> BodyModel {
        match self {
            BodyOutcome::Decoded { estado, exito } => BodyModel::Decoded {
                estado: estado@,
                exito: *exito,
            },
            BodyOutcome::Undecodable => BodyModel::Undecodable,
        }
    }
}

/// What the forwarder does once the relay backend's answer (or its absence)
/// is known.
#[derive(Debug, Clone, PartialEq, Eq)]
pub enum RelayStep {
    /// Read and decode the body of the answer, then call `relay_after_body`.
    DecodeBody,
    /// Answer the caller with this result; the exchange is over.
    Reply(StatusResult),
}

/// Mathematical model of a `RelayStep`.
pub enum RelayStepModel {
    DecodeBody,
    Reply(StatusModel),
}

impl View for RelayStep {
    type V = RelayStepModel;

    open spec fn view(&self) -> RelayStepModel {
        match self {
            RelayStep::DecodeBody => RelayStepModel::DecodeBody,
            RelayStep::Reply(s) => RelayStepModel::Reply(s@),
        }
    }
}

/// The step that follows a send outcome: an unreachable backend and a non-2xx
/// answer end the exchange with a fixed failure; a 2xx answer has its body
/// decoded.
pub open spec fn relay_send_step(outcome: SendOutcome) -> RelayStepModel {
    match outcome {
        SendOutcome::Unreachable => RelayStepModel::Reply(failure_model(connect_error_message())),
        SendOutcome::Answered(code) => if is_success_code(code) {
            RelayStepModel::DecodeBody
        } else {
            RelayStepModel::Reply(failure_model(bridge_error_message()))
        },
    }
}

/// The result given by a decoded (or undecodable) 2xx body. A body without a
/// success flag counts as success.
pub open spec fn relay_body_status(body: BodyModel) -> StatusModel {
    match body {
        BodyModel::Decoded { estado, exito } => StatusModel {
            status: estado,
            exito: match exito {
                Some(flag) => flag,
                None => true,
            },
        },
        BodyModel::Undecodable => failure_model(decode_error_message()),
    }
}

/// The result of a whole relay exchange, given what the send and, where it is
/// read, the body gave.
pub open spec fn relay_exchange_status(send: SendOutcome, body: BodyModel) -> StatusModel {
    match relay_send_step(send) {
        RelayStepModel::Reply(s) => s,
        RelayStepModel::DecodeBody => relay_body_status(body),
    }
}

/// Decides what follows the attempt to post the purchase to the relay backend.
pub fn relay_after_send(outcome: SendOutcome) -> (r: RelayStep)
    ensures
        r@ == relay_send_step(outcome),
{
    match outcome {
        SendOutcome::Unreachable => RelayStep::Reply(StatusResult::connect_error()),
        SendOutcome::Answered(code) => if status_is_success(code) {
            RelayStep::DecodeBody
        } else {
            RelayStep::Reply(StatusResult::bridge_error())
        },
    }
}

/// Turns the decoded body of a 2xx answer into the caller's result.
pub fn relay_after_body(outcome: BodyOutcome) -> (r: StatusResult)
    ensures
        r@ == relay_body_status(outcome@),
{
    match outcome {
        BodyOutcome::Decoded { estado, exito } => {
            let flag = match exito {
                Some(f) => f,
                None => true,
            };
            StatusResult { status: estado, exito: flag }
        },
        BodyOutcome::Undecodable => StatusResult::decode_error(),
    }
}

} // verus!
