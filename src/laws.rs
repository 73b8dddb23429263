//! Properties of the forwarder that relate several outcomes or several calls.
use crate::relay::{
    is_success_code, relay_body_status, relay_exchange_status, relay_send_step, BodyModel,
    RelayStepModel, SendOutcome,
};
use crate::rpc::{rpc_outcome_status, RpcModel};
use crate::status::{
    bridge_error_message, connect_error_message, failure_model, StatusModel,
};
use vstd::prelude::*;

verus! {

/// Every relay exchange ends in exactly one result: after the send the
/// forwarder either replies at once, or (exactly when the backend answered
/// 2xx) decodes the body, and whatever the body gives is then the reply.
pub proof fn lemma_relay_exchange_ends_in_one_result(send: SendOutcome, body: BodyModel)
    ensures
        (relay_send_step(send) is DecodeBody) <==> (send matches SendOutcome::Answered(code)
            && is_success_code(code)),
        relay_send_step(send) matches RelayStepModel::Reply(s) ==> relay_exchange_status(
            send,
            body,
        ) == s,
        relay_send_step(send) is DecodeBody ==> relay_exchange_status(send, body)
            == relay_body_status(body),
{
}

/// An unreachable relay backend gives a failure whose message starts with
/// "Connect", whatever else happens.
pub proof fn lemma_unreachable_backend_reports_connection_failure(body: BodyModel)
    ensures
        relay_exchange_status(SendOutcome::Unreachable, body) == failure_model(
            connect_error_message(),
        ),
        !relay_exchange_status(SendOutcome::Unreachable, body).exito,
        relay_exchange_status(SendOutcome::Unreachable, body).status.subrange(0, 7)
            == "Connect"@,
{
    reveal_strlit("Connect Error");
    reveal_strlit("Connect");
    assert(relay_exchange_status(SendOutcome::Unreachable, body).status.subrange(0, 7)
        =~= "Connect"@);
}

/// A backend that succeeds with message `m` and success flag `true` gives the
/// result (`m`, `true`), over either strategy; a relay body without a flag
/// counts as the same success.
pub proof fn lemma_backend_success_passes_through(message: Seq<char>, code: u16)
    requires
        is_success_code(code),
    ensures
        rpc_outcome_status(RpcModel::Returned { message, success: true }) == (StatusModel {
            status: message,
            exito: true,
        }),
        relay_exchange_status(
            SendOutcome::Answered(code),
            BodyModel::Decoded { estado: message, exito: Some(true) },
        ) == (StatusModel { status: message, exito: true }),
        relay_exchange_status(
            SendOutcome::Answered(code),
            BodyModel::Decoded { estado: message, exito: None },
        ) == (StatusModel { status: message, exito: true }),
{
}

/// Every status code outside the 2xx class gives the same fixed, non-empty
/// failure message, whatever the body would have held.
pub proof fn lemma_relay_error_codes_give_fixed_failure(code: u16, body: BodyModel)
    requires
        !is_success_code(code),
    ensures
        relay_exchange_status(SendOutcome::Answered(code), body) == failure_model(
            bridge_error_message(),
        ),
        !relay_exchange_status(SendOutcome::Answered(code), body).exito,
        relay_exchange_status(SendOutcome::Answered(code), body).status.len() > 0,
{
    reveal_strlit("Bridge Error");
}

/// The result depends on the backend's outcome alone: the same outcomes give
/// the same result, with no state carried from one exchange to the next.
pub proof fn lemma_forwarding_is_deterministic(
    send1: SendOutcome,
    body1: BodyModel,
    send2: SendOutcome,
    body2: BodyModel,
    rpc1: RpcModel,
    rpc2: RpcModel,
)
    requires
        send1 == send2,
        body1 == body2,
        rpc1 == rpc2,
    ensures
        relay_exchange_status(send1, body1) == relay_exchange_status(send2, body2),
        rpc_outcome_status(rpc1) == rpc_outcome_status(rpc2),
{
}

} // verus!
