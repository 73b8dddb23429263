use purchase_forwarder::relay::{
    relay_after_body, relay_after_send, status_is_success, BodyOutcome, RelayStep, SendOutcome,
};
use purchase_forwarder::rpc::{rpc_status, RpcOutcome};
use purchase_forwarder::status::StatusResult;

fn result(status: &str, exito: bool) -> StatusResult {
    StatusResult { status: status.to_string(), exito }
}

/// Runs a relay exchange the way the server does: the body is only read when
/// the send step asks for it.
fn exchange(send: SendOutcome, body: BodyOutcome) -> StatusResult {
    match relay_after_send(send) {
        RelayStep::Reply(r) => r,
        RelayStep::DecodeBody => relay_after_body(body),
    }
}

fn ok_body() -> BodyOutcome {
    BodyOutcome::Decoded { estado: "OK".to_string(), exito: Some(true) }
}

#[test]
fn success_codes_are_the_2xx_class() {
    assert!(!status_is_success(199));
    assert!(status_is_success(200));
    assert!(status_is_success(204));
    assert!(status_is_success(299));
    assert!(!status_is_success(300));
    assert!(!status_is_success(404));
    assert!(!status_is_success(500));
    assert!(!status_is_success(0));
    assert!(!status_is_success(u16::MAX));
}

#[test]
fn echo_backend_round_trip() {
    // The purchase {"categoria": 1, "producto_id": "sku-42", "precio": 19.99,
    // "cantidad_vendida": 3} answered by {"estado": "OK", "exito": true}.
    assert_eq!(relay_after_send(SendOutcome::Answered(200)), RelayStep::DecodeBody);
    assert_eq!(relay_after_body(ok_body()), result("OK", true));
}

#[test]
fn ok_answer_passes_through_on_both_strategies() {
    assert_eq!(exchange(SendOutcome::Answered(200), ok_body()), result("OK", true));
    let rpc = RpcOutcome::Returned { message: "OK".to_string(), success: true };
    assert_eq!(rpc_status(rpc), result("OK", true));
}

#[test]
fn body_without_flag_counts_as_success() {
    let body = BodyOutcome::Decoded { estado: "Venta registrada".to_string(), exito: None };
    assert_eq!(relay_after_body(body), result("Venta registrada", true));
}

#[test]
fn body_flag_false_is_kept() {
    let body = BodyOutcome::Decoded { estado: "Sin stock".to_string(), exito: Some(false) };
    assert_eq!(relay_after_body(body), result("Sin stock", false));
}

#[test]
fn decoded_status_is_not_the_fixed_messages() {
    let body = BodyOutcome::Decoded { estado: "procesado".to_string(), exito: Some(true) };
    let r = exchange(SendOutcome::Answered(201), body);
    assert_eq!(r.status, "procesado");
    assert!(r.exito);
}

#[test]
fn unreachable_backend_reports_connect_error() {
    let r = exchange(SendOutcome::Unreachable, ok_body());
    assert_eq!(r, result("Connect Error", false));
    assert!(r.status.contains("Connect"));
    assert_eq!(relay_after_send(SendOutcome::Unreachable), RelayStep::Reply(StatusResult::connect_error()));
}

#[test]
fn server_error_gives_fixed_failure() {
    let r = exchange(SendOutcome::Answered(500), ok_body());
    assert!(!r.exito);
    assert!(!r.status.is_empty());
    assert_eq!(r, result("Bridge Error", false));
}

#[test]
fn every_non_success_code_gives_the_same_failure() {
    for code in [0u16, 100, 199, 300, 301, 404, 500, 503, u16::MAX] {
        assert_eq!(
            relay_after_send(SendOutcome::Answered(code)),
            RelayStep::Reply(result("Bridge Error", false))
        );
    }
}

#[test]
fn undecodable_body_gives_decode_error() {
    assert_eq!(exchange(SendOutcome::Answered(200), BodyOutcome::Undecodable), result("Decode Error", false));
    assert_eq!(StatusResult::decode_error(), result("Decode Error", false));
}

#[test]
fn rpc_failure_carries_prefix_and_detail() {
    let r = rpc_status(RpcOutcome::Failed { detail: "status: Unavailable".to_string() });
    assert_eq!(r, result("Error gRPC: status: Unavailable", false));
}

#[test]
fn rpc_failure_with_empty_detail() {
    let r = rpc_status(RpcOutcome::Failed { detail: String::new() });
    assert_eq!(r, result("Error gRPC: ", false));
}

#[test]
fn rpc_answer_flag_false_is_kept() {
    let rpc = RpcOutcome::Returned { message: "Rechazado".to_string(), success: false };
    assert_eq!(rpc_status(rpc), result("Rechazado", false));
}

#[test]
fn failure_builds_the_given_message() {
    assert_eq!(StatusResult::failure("x"), result("x", false));
    assert_eq!(StatusResult::failure(""), result("", false));
    assert_eq!(StatusResult::bridge_error(), result("Bridge Error", false));
}

#[test]
fn same_outcome_twice_gives_same_result() {
    let a = exchange(SendOutcome::Answered(200), ok_body());
    let b = exchange(SendOutcome::Answered(200), ok_body());
    assert_eq!(a, b);
    let c = exchange(SendOutcome::Answered(500), BodyOutcome::Undecodable);
    let d = exchange(SendOutcome::Answered(500), BodyOutcome::Undecodable);
    assert_eq!(c, d);
    let rpc = || RpcOutcome::Failed { detail: "timeout".to_string() };
    assert_eq!(rpc_status(rpc()), rpc_status(rpc()));
}
