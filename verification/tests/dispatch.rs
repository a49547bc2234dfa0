use abcf::dispatch::route;
use abcf::Error;

#[test]
fn route_without_rpc_methods_answers_nothing() {
    assert!(matches!(route(true, &[], "anything"), Ok(None)));
    assert!(matches!(route(true, &["a"], "a"), Ok(None)));
}

#[test]
fn route_picks_first_matching_arm() {
    let arms = ["get", "put", "put"];
    assert!(matches!(route(false, &arms, "get"), Ok(Some(0))));
    assert!(matches!(route(false, &arms, "put"), Ok(Some(1))));
}

#[test]
fn route_refuses_unknown_method() {
    let arms = ["get", "put"];
    assert!(matches!(route(false, &arms, "delete"), Err(Error::TempOnlySupportRPC)));
    assert!(matches!(route(false, &arms, "Get"), Err(Error::TempOnlySupportRPC)));
}

#[test]
fn route_refuses_when_methods_have_no_arms() {
    assert!(matches!(route(false, &[], "get"), Err(Error::TempOnlySupportRPC)));
}

use abcf::dispatch::{call_step, CallAction, CallEvent};
use abcf::Response;

type Step = CallAction<u32, String, String>;

#[test]
fn decoding_error_is_the_answer() {
    let a: Step = call_step(CallEvent::Decoded(Err(Error::new_rpc_error(7, String::from("bad")))));
    assert!(matches!(a, CallAction::Finish(Err(Error::RPCApplicationError(7, _)))));
}

#[test]
fn decoded_parameter_goes_to_handler() {
    let a: Step = call_step(CallEvent::Decoded(Ok(5)));
    assert!(matches!(a, CallAction::CallHandler(5)));
}

#[test]
fn handler_error_code_is_the_answer() {
    let r = Response { code: 2, message: String::from("no"), data: Some(String::from("ignored")) };
    let a: Step = call_step(CallEvent::Answered(r));
    match a {
        CallAction::Finish(Err(Error::RPCApplicationError(code, message))) => {
            assert_eq!(code, 2);
            assert_eq!(message, "no");
        },
        _ => panic!("expected the handler's error"),
    }
}

#[test]
fn handler_data_goes_to_encoder() {
    let a: Step = call_step(CallEvent::Answered(Response::new(String::from("v"))));
    match a {
        CallAction::Encode(v) => assert_eq!(v, "v"),
        _ => panic!("expected encoding"),
    }
    let b: Step = call_step(CallEvent::Answered(Response::default()));
    assert!(matches!(b, CallAction::Finish(Ok(None))));
}

#[test]
fn encoded_data_is_the_answer() {
    let a: Step = call_step(CallEvent::Encoded(Ok(String::from("json"))));
    match a {
        CallAction::Finish(Ok(Some(w))) => assert_eq!(w, "json"),
        _ => panic!("expected the encoded data"),
    }
    let b: Step = call_step(CallEvent::Encoded(Err(Error::TempOnlySupportRPC)));
    assert!(matches!(b, CallAction::Finish(Err(Error::TempOnlySupportRPC))));
}
