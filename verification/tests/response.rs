use abcf::error::{Error, JSON_ERROR_CODE, UNSUPPORTED_CALL_CODE};
use abcf::Response;

#[test]
fn new_response_is_success_with_data() {
    let r = Response::new(7u32);
    assert_eq!(r.code, 0);
    assert_eq!(r.message, "success");
    assert_eq!(r.data, Some(7));
}

#[test]
fn default_response_is_success_without_data() {
    let r: Response<u32> = Response::default();
    assert_eq!(r.code, 0);
    assert_eq!(r.message, "success");
    assert_eq!(r.data, None);
}

#[test]
fn response_from_rpc_error_keeps_code_and_message() {
    let r: Response<u32> = Response::from(Error::new_rpc_error(404, String::from("not found")));
    assert_eq!(r.code, 404);
    assert_eq!(r.message, "not found");
    assert_eq!(r.data, None);
}

#[test]
fn response_from_unsupported_call() {
    let r: Response<u32> = Response::from(Error::TempOnlySupportRPC);
    assert_eq!(r.code, UNSUPPORTED_CALL_CODE);
    assert_eq!(r.code, 10002);
    assert_eq!(r.message, "only RPC calls are supported");
    assert_eq!(r.data, None);
}

#[test]
fn response_from_json_error() {
    let err = serde_json::from_str::<u32>("not json").unwrap_err();
    let text = err.to_string();
    let e = Error::from_json(err);
    assert_eq!(e.code(), JSON_ERROR_CODE);
    assert_eq!(e.code(), 10001);
    assert_eq!(e.message(), text);
    let r: Response<u32> = Response::from(e);
    assert_eq!(r.code, 10001);
    assert_eq!(r.message, text);
    assert_eq!(r.data, None);
}

#[test]
fn success_is_answered_with_data() {
    match Response::new(String::from("abc")).into_call_result() {
        Ok(Some(v)) => assert_eq!(v, "abc"),
        _ => panic!("expected data"),
    }
    let r: Response<String> = Response::default();
    assert!(matches!(r.into_call_result(), Ok(None)));
}

#[test]
fn non_zero_code_is_answered_as_rpc_error() {
    let r: Response<u32> = Response { code: 3, message: String::from("bad"), data: Some(1) };
    match r.into_call_result() {
        Err(Error::RPCApplicationError(code, message)) => {
            assert_eq!(code, 3);
            assert_eq!(message, "bad");
        },
        _ => panic!("expected an RPC application error"),
    }
}

#[test]
fn rpc_error_round_trip() {
    let e = Error::new_rpc_error(500, String::from("boom"));
    let r: Response<u32> = Response::from(e);
    match r.into_call_result() {
        Err(back) => {
            assert!(matches!(back, Error::RPCApplicationError(500, _)));
            assert_eq!(back.code(), 500);
            assert_eq!(back.message(), "boom");
        },
        Ok(_) => panic!("expected the error back"),
    }
}

#[test]
fn framework_error_is_never_success() {
    let r: Response<u32> = Response::from(Error::TempOnlySupportRPC);
    match r.into_call_result() {
        Err(back) => {
            assert_eq!(back.code(), 10002);
            assert_eq!(back.message(), "only RPC calls are supported");
        },
        Ok(_) => panic!("an error must not read as success"),
    }
}
