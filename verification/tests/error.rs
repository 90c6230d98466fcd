use async_lsp::message::{RawMessage, RpcVersion};
use async_lsp::{
    AnyNotification, AnyRequest, AnyResponse, Error, ErrorCode, Message, RequestId, ResponseError,
};

fn json_error() -> serde_json::Error {
    serde_json::from_str::<u8>("x").unwrap_err()
}

#[test]
fn errors_are_shown() {
    assert_eq!(Error::ServiceStopped.display(), "service stopped");
    assert_eq!(
        Error::from(json_error()).display(),
        format!("deserialization failed: {}", json_error())
    );
    let response = ResponseError::new(ErrorCode(ErrorCode::INVALID_PARAMS), "bad");
    assert_eq!(Error::from(response).display(), "bad (jsonrpc error -32602)");
    assert_eq!(Error::Protocol("x".to_owned()).display(), "protocol error: x");
    let io = || std::io::Error::from(std::io::ErrorKind::BrokenPipe);
    assert_eq!(Error::from(io()).display(), io().to_string());
    assert_eq!(Error::Eof.display(), "the underlying channel reached EOF");
    assert_eq!(Error::Routing("y".to_owned()).display(), "y");
}

#[test]
fn error_codes() {
    assert_eq!(ErrorCode::from(-5), ErrorCode(-5));
    assert_eq!(ErrorCode(i32::MIN).display(), "jsonrpc error -2147483648");
    assert_eq!(ErrorCode(0).display(), "jsonrpc error 0");
    assert_eq!(ErrorCode::PARSE_ERROR, -32700);
    assert_eq!(ErrorCode::INVALID_REQUEST, -32600);
    assert_eq!(ErrorCode::METHOD_NOT_FOUND, -32601);
    assert_eq!(ErrorCode::INVALID_PARAMS, -32602);
    assert_eq!(ErrorCode::INTERNAL_ERROR, -32603);
    assert_eq!(ErrorCode::JSONRPC_RESERVED_ERROR_RANGE_START, -32099);
    assert_eq!(ErrorCode::SERVER_NOT_INITIALIZED, -32002);
    assert_eq!(ErrorCode::UNKNOWN_ERROR_CODE, -32001);
    assert_eq!(ErrorCode::JSONRPC_RESERVED_ERROR_RANGE_END, -32000);
    assert_eq!(ErrorCode::LSP_RESERVED_ERROR_RANGE_START, -32899);
    assert_eq!(ErrorCode::REQUEST_FAILED, -32803);
    assert_eq!(ErrorCode::SERVER_CANCELLED, -32802);
    assert_eq!(ErrorCode::CONTENT_MODIFIED, -32801);
    assert_eq!(ErrorCode::REQUEST_CANCELLED, -32800);
    assert_eq!(ErrorCode::LSP_RESERVED_ERROR_RANGE_END, -32800);
}

#[test]
fn response_errors_with_and_without_data() {
    let plain = ResponseError::new(ErrorCode(1), 25);
    assert_eq!(plain.message, "25");
    assert!(plain.data.is_none());
    let full = ResponseError::new_with_data(ErrorCode(2), "m", 3.into()).clone();
    assert_eq!(full.code, ErrorCode(2));
    assert_eq!(full.data, Some(3.into()));
    assert_eq!(full.display(), "m (jsonrpc error 2)");
}

#[test]
fn outcomes_go_through_responses() {
    let id = RequestId::Number(3);
    let ok = AnyResponse::new(id.clone(), Ok(1.into())).clone();
    assert_eq!(ok.id, id);
    assert_eq!(ok.into_outcome().unwrap(), 1);
    let err = AnyResponse::new(id.clone(), Err(ResponseError::new(ErrorCode(4), "e")));
    assert_eq!(err.into_outcome().unwrap_err().message, "e");
    let neither = AnyResponse { id, result: None, error: None };
    assert_eq!(neither.into_outcome().unwrap(), serde_json::Value::Null);
}

#[test]
fn null_parameters_are_left_out() {
    let mut req = AnyRequest {
        id: RequestId::Number(1),
        method: "m".to_owned(),
        params: serde_json::Value::Null,
    };
    assert!(req.clone().omits_params());
    req.params = false.into();
    assert!(!req.clone().omits_params());
    let notif = AnyNotification { method: "m".to_owned(), params: 0.into() };
    assert!(!notif.omits_params());
    let raw = RawMessage::new(Message::Notification(notif).clone());
    assert_eq!(raw.jsonrpc, RpcVersion::V2);
    assert!(matches!(raw.inner, Message::Notification(notif) if notif.method == "m"));
}

#[test]
fn identifiers_are_compared_by_what_they_say() {
    assert_eq!(RequestId::Number(1), RequestId::Number(1).clone());
    assert_ne!(RequestId::Number(1), RequestId::Number(2));
    assert_ne!(RequestId::Number(1), RequestId::String("1".to_owned()));
    assert_eq!(RequestId::String("a".to_owned()), RequestId::String("a".to_owned()));
    assert_ne!(RequestId::String("a".to_owned()), RequestId::String("b".to_owned()));
}
