//! The remote-procedure strategy: one unary call returns a message and a
//! success flag, or fails.
use crate::status::{failure_model, StatusModel, StatusResult};
use vstd::prelude::*;

verus! {

/// What came of the remote procedure call.
#[derive(Debug, Clone, PartialEq, Eq)]
pub enum RpcOutcome {
    /// The backend returned its status message and success flag.
    Returned { message: String, success: bool },
    /// The call failed (transport or application error), with its detail.
    Failed { detail: String },
}

/// Mathematical model of an `RpcOutcome`.
pub enum RpcModel {
    Returned { message: Seq<char>, success: bool },
    Failed { detail: Seq<char> },
}

impl View for RpcOutcome {
    type V = RpcModel;

    open spec fn view(&self) -> RpcModel {
        match self {
            RpcOutcome::Returned { message, success } => RpcModel::Returned {
                message: message@,
                success: *success,
            },
            RpcOutcome::Failed { detail } => RpcModel::Failed { detail: detail@ },
        }
    }
}

/// Prefix of the message reported for a failed remote procedure call.
pub open spec fn rpc_error_prefix() -> Seq<char> {
    "Error gRPC: "@
}

/// The result given by a remote procedure call outcome: a returned answer is
/// passed through; a failure is reported with its detail behind a fixed prefix.
pub open spec fn rpc_outcome_status(outcome: RpcModel) -> StatusModel {
    match outcome {
        RpcModel::Returned { message, success } => StatusModel { status: message, exito: success },
        RpcModel::Failed { detail } => failure_model(rpc_error_prefix() + detail),
    }
}

/// Turns the outcome of the remote procedure call into the caller's result.
pub fn rpc_status(outcome: RpcOutcome) -> (r: StatusResult)
    ensures
        r@ == rpc_outcome_status(outcome@),
{
    match outcome {
        RpcOutcome::Returned { message, success } => StatusResult { status: message, exito: success },
        RpcOutcome::Failed { detail } => {
            let status = String::from_str("Error gRPC: ").concat(detail.as_str());
            StatusResult { status, exito: false }
        },
    }
}

} // verus!
